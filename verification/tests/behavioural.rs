use design_patterns::chain_of_responsibility::{Employee, PurchasePower, PurchaseRequest};
use design_patterns::command::{Command, Light, LightOffCommand, LightOnCommand, Switch};
use design_patterns::iterator::{CustomList, Fibonacci};
use design_patterns::mediator::{
    Button, ButtonBook, ButtonSearch, ButtonView, Display, Mediator, ParticipantMediator,
};
use design_patterns::observer::{Model, Observable, Observer, View};
use design_patterns::state::{AnyState, Draft, PendingReview, Post, Published, State};
use design_patterns::strategy::{Algorithm, FastAlgorithm, SlowAlgorithm, SomeObject};

#[test]
fn test_chain_of_responsibility() {
    let mut manager = Employee::new("manager", 5000);
    let mut director = Employee::new("director", 10_000);
    let mut vp = Employee::new("vice-president", 20_000);
    let president = Employee::new("president", 40_000);

    vp.set_successor(Box::new(president));
    director.set_successor(Box::new(vp));
    manager.set_successor(Box::new(director));

    let request_0 = PurchaseRequest::new(12_000, "general expenses");
    assert_eq!(manager.process_request(request_0), "vice-president will approve $12000 for general expenses");

    let request_1 = PurchaseRequest::new(1_000_000, "buy a house");
    assert_eq!(manager.process_request(request_1), "Request amount is too high");

    let request_2 = PurchaseRequest::new(500, "desk repair");
    assert_eq!(manager.process_request(request_2), "manager will approve $500 for desk repair");

    let request_3 = PurchaseRequest::new(35_000, "company car");
    assert_eq!(manager.process_request(request_3), "president will approve $35000 for company car");

    let request_4 = PurchaseRequest::new(9000, "retreat event");
    assert_eq!(manager.process_request(request_4), "director will approve $9000 for retreat event");
}

#[test]
fn chain_limit_itself_is_passed_on() {
    let mut manager = Employee::new("manager", 5000);
    manager.set_successor(Box::new(Employee::new("director", 10_000)));

    assert_eq!(
        manager.process_request(PurchaseRequest::new(4999, "chairs")),
        "manager will approve $4999 for chairs"
    );
    assert_eq!(
        manager.process_request(PurchaseRequest::new(5000, "chairs")),
        "director will approve $5000 for chairs"
    );
    assert_eq!(
        manager.process_request(PurchaseRequest::new(10_000, "chairs")),
        "Request amount is too high"
    );
}

#[test]
fn chain_single_handler() {
    let clerk = Employee::new("clerk", 1);
    assert_eq!(clerk.get_role(), "clerk");
    assert_eq!(clerk.get_allowable(), 1);
    assert!(clerk.get_successor().is_none());
    assert_eq!(clerk.process_request(PurchaseRequest::new(0, "")), "clerk will approve $0 for ");
    assert_eq!(clerk.process_request(PurchaseRequest::new(1, "pen")), "Request amount is too high");

    let nobody = Employee::new("nobody", 0);
    assert_eq!(nobody.process_request(PurchaseRequest::new(0, "pen")), "Request amount is too high");
}

#[test]
fn chain_successor_is_replaced() {
    let mut manager = Employee::new("manager", 10);
    manager.set_successor(Box::new(Employee::new("first", 100)));
    manager.set_successor(Box::new(Employee::new("second", 1000)));
    assert_eq!(manager.get_successor().unwrap().get_role(), "second");
    assert_eq!(
        manager.process_request(PurchaseRequest::new(50, "ink")),
        "second will approve $50 for ink"
    );
    assert_eq!(
        manager.process_request(PurchaseRequest::new(u32::MAX, "ink")),
        "Request amount is too high"
    );
}

#[test]
fn purchase_request_getters() {
    let request = PurchaseRequest::new(4_294_967_295, "everything");
    assert_eq!(request.get_amount(), 4_294_967_295);
    assert_eq!(request.get_purpose(), "everything");
}

#[test]
fn test_command() {
    let mut switch = Switch::new();
    assert_eq!(switch.execute_command("ON"), "light turned on");
    assert_eq!(switch.execute_command("OFF"), "light turned off");
    assert_eq!(switch.execute_command("ON"), "light turned on");
    assert_eq!(switch.execute_command("ON"), "light turned on");
}

#[test]
#[should_panic(expected = "Unexpected command")]
fn test_wrong_command() {
    let mut switch = Switch::new();
    let _ = switch.execute_command("Random_command");
}

#[test]
fn command_words() {
    assert!(Switch::accepts("ON"));
    assert!(Switch::accepts("OFF"));
    assert!(!Switch::accepts("Random_command"));
    assert!(!Switch::accepts("on"));
    assert!(!Switch::accepts(""));
    assert!(!Switch::accepts("ONN"));
}

#[test]
fn command_objects() {
    let light = Light;
    assert_eq!(light.turn_on(), "light turned on");
    assert_eq!(light.turn_off(), "light turned off");
    assert_eq!(LightOnCommand::new(light).execute(), "light turned on");
    assert_eq!(LightOffCommand::new(light).execute(), "light turned off");
}

#[test]
fn test_iterator() {
    let list = CustomList {
        name: String::from("my list"),
        fib: Fibonacci { current: 0, next: 1 },
    };

    let mut list_iter = list.into_iter();
    assert_eq!(Some(1), list_iter.next());
    assert_eq!(Some(1), list_iter.next());
    assert_eq!(Some(2), list_iter.next());
    assert_eq!(Some(3), list_iter.next());
    assert_eq!(Some(5), list_iter.next());
    assert_eq!(Some(8), list_iter.next());
    assert_eq!(Some(13), list_iter.next());
    assert_eq!(Some(21), list_iter.next());
    assert_eq!(Some(34), list_iter.next());
    assert_eq!(Some(55), list_iter.next());
}

#[test]
fn iterator_walks_any_start() {
    let mut cursor = Fibonacci { current: 2, next: 1 };
    assert_eq!(cursor.next(), Some(1));
    assert_eq!(cursor.next(), Some(3));
    assert_eq!(cursor.next(), Some(4));
    assert_eq!(cursor.current, 4);
    assert_eq!(cursor.next, 7);
}

#[test]
fn iterator_reaches_the_largest_sum_that_fits() {
    // 1_134_903_170 and 1_836_311_903 are consecutive Fibonacci numbers;
    // their sum, 2_971_215_073, is the largest one below 2^32.
    let mut cursor = Fibonacci { current: 1_134_903_170, next: 1_836_311_903 };
    assert_eq!(cursor.next(), Some(1_836_311_903));
    assert_eq!(cursor.next, 2_971_215_073);
}

#[test]
#[should_panic]
fn test_mediator_panic() {
    let mut mediator = ParticipantMediator::new();
    mediator.view();
}

#[test]
fn test_mediator() {
    let view = ButtonView::new();
    let search = ButtonSearch::new();
    let book = ButtonBook::new();
    let display = Display;

    let mut mediator = ParticipantMediator::new();
    mediator.register_book(book);
    mediator.register_view(view);
    mediator.register_search(search);
    mediator.register_display(display);

    assert_eq!(mediator.view(), "viewing");
    assert_eq!(mediator.book(), "booking");
    assert_eq!(mediator.search(), "searching");
    assert_eq!(mediator.view(), "viewing");

    assert_eq!(mediator.get_counts(), (2_u8, 1_u8, 1_u8));
}

#[test]
fn mediator_buttons_count_presses() {
    let mut book = ButtonBook::new();
    assert_eq!(book.get_press_count(), 0);
    book.press();
    book.press();
    book.press();
    assert_eq!(book.get_press_count(), 3);

    let mut view = ButtonView::new();
    view.press();
    assert_eq!(view.get_press_count(), 1);

    let mut search = ButtonSearch::new();
    for _ in 0..255 {
        search.press();
    }
    assert_eq!(search.get_press_count(), 255);

    assert_eq!(Display.print("anything"), "anything");
}

#[test]
fn mediator_registering_again_replaces_the_button() {
    let mut pressed = ButtonView::new();
    pressed.press();
    pressed.press();

    let mut mediator = ParticipantMediator::new();
    mediator.register_view(ButtonView::new());
    mediator.register_search(ButtonSearch::new());
    mediator.register_book(ButtonBook::new());
    mediator.register_display(Display);
    assert_eq!(mediator.get_counts(), (0, 0, 0));

    mediator.register_view(pressed);
    assert_eq!(mediator.get_counts(), (2, 0, 0));
    assert_eq!(mediator.view(), "viewing");
    assert_eq!(mediator.get_counts(), (3, 0, 0));
}

#[test]
fn test_observer() {
    let view_0 = View { name: "view_0".to_string() };
    let view_1 = View { name: "view_1".to_string() };
    let view_2 = View { name: "view_2".to_string() };

    let mut subject = Model { data: 0_u64, observers: Vec::new() };
    subject.register_observer(&view_0);
    subject.register_observer(&view_1);
    subject.register_observer(&view_2);

    let mut res = subject.set_data(24);
    assert_eq!(res, "\nView view_0 got data: 24\nView view_1 got data: 24\nView view_2 got data: 24");

    res = subject.set_data(100);
    assert_eq!(res, "\nView view_0 got data: 100\nView view_1 got data: 100\nView view_2 got data: 100");

    res = subject.set_data(1130113);
    assert_eq!(res, "\nView view_0 got data: 1130113\nView view_1 got data: 1130113\nView view_2 got data: 1130113");
}

#[test]
fn observer_without_audience() {
    let mut subject = Model { data: 7, observers: Vec::new() };
    assert_eq!(subject.notify_observers(1), "");
    assert_eq!(subject.set_data(3), "");
    assert_eq!(subject.data, 3);
}

#[test]
fn observer_largest_value() {
    let view = View { name: String::new() };
    assert_eq!(view.update(u64::MAX), "View  got data: 18446744073709551615");
    assert_eq!(view.update(0), "View  got data: 0");

    let mut subject = Model { data: 0, observers: Vec::new() };
    subject.register_observer(&view);
    subject.register_observer(&view);
    assert_eq!(subject.set_data(10), "\nView  got data: 10\nView  got data: 10");
    assert_eq!(subject.data, 10);
    assert_eq!(subject.observers.len(), 2);
}

#[test]
fn test_state() {
    let mut post = Post::new();

    post.add_text("I ate a salad for lunch today");
    assert_eq!("", post.content());

    post.request_review();
    assert_eq!("", post.content());

    post.approve();
    assert_eq!("I ate a salad for lunch today", post.content());
}

#[test]
fn state_approval_needs_a_review_first() {
    let mut post = Post::new();
    post.add_text("draft");
    post.approve();
    post.approve();
    assert_eq!(post.content(), "");
    post.request_review();
    post.request_review();
    assert_eq!(post.content(), "");
    post.approve();
    assert_eq!(post.content(), "draft");
    post.request_review();
    post.approve();
    post.add_text(", still shown");
    assert_eq!(post.content(), "draft, still shown");
}

#[test]
fn state_transitions() {
    assert_eq!(Draft.request_review(), AnyState::PendingReview(PendingReview));
    assert_eq!(Draft.approve(), AnyState::Draft(Draft));
    assert_eq!(PendingReview.request_review(), AnyState::PendingReview(PendingReview));
    assert_eq!(PendingReview.approve(), AnyState::Published(Published));
    assert_eq!(Published.request_review(), AnyState::Published(Published));
    assert_eq!(Published.approve(), AnyState::Published(Published));
    assert_eq!(AnyState::Draft(Draft).request_review().approve(), AnyState::Published(Published));

    let mut post = Post::new();
    post.add_text("text");
    assert_eq!(Draft.content(&post), "");
    assert_eq!(PendingReview.content(&post), "");
    assert_eq!(Published.content(&post), "text");
    assert_eq!(AnyState::Published(Published).content(&post), "text");
}

#[test]
fn test_strategy() {
    let mut object = SomeObject::new(Box::new(SlowAlgorithm));
    assert_eq!(object.run(), "very slow algorithm ...");

    object.set_behaviour(Box::new(FastAlgorithm));
    assert_eq!(object.run(), "very fast algorithm");
}

#[test]
fn strategy_algorithms() {
    assert_eq!(FastAlgorithm.run(), "very fast algorithm");
    assert_eq!(SlowAlgorithm.run(), "very slow algorithm ...");
}
