use design_patterns::abstract_factory::{Button, Debian, Factory, Factory2, Linux, Window, OSX};
use design_patterns::builder::{Builder, Car, CarBuilder, CarBuilderDirector};
use design_patterns::factory_method::{
    BetterSedanFactory, Car as FactoryCar, CarFactory, CarFactory2, SedanFactory,
};

#[test]
fn test_abstract_factory() {
    let osx_factory = OSX {};
    let osx_button = osx_factory.create_button();
    let osx_window = osx_factory.create_window();

    let linux_factory = Linux {};
    let linux_button = linux_factory.create_button();
    let linux_window = linux_factory.create_window();

    assert_eq!(osx_button.paint(), "OSXButton");
    assert_eq!(osx_window.size(), (800_u32, 800_u32));

    assert_eq!(linux_button.paint(), "LinuxButton");
    assert_eq!(linux_window.size(), (400_u32, 400_u32));

    let debian_factory = Debian {};
    let debian_button = debian_factory.create_button();
    let debian_window = debian_factory.create_window();

    assert_eq!(debian_button.paint(), "DebianButton");
    assert_eq!(debian_window.size(), (1600_u32, 1600_u32));
}

#[test]
fn abstract_factory_products_share_a_type() {
    let buttons: Vec<Box<dyn Button>> = vec![Linux.create_button(), OSX.create_button()];
    let labels: Vec<&str> = buttons.iter().map(|b| b.paint()).collect();
    assert_eq!(labels, vec!["LinuxButton", "OSXButton"]);

    let windows: Vec<Box<dyn Window>> = vec![OSX.create_window(), Linux.create_window()];
    let sizes: Vec<(u32, u32)> = windows.iter().map(|w| w.size()).collect();
    assert_eq!(sizes, vec![(800, 800), (400, 400)]);
}

#[test]
fn test_builder() {
    let mut director = CarBuilderDirector::new();
    let car = director.construct();

    assert_eq!(car.description(), "This is a red car with 4 wheels and 5 seats.");
}

#[test]
fn builder_new_car() {
    let car = Car::new();
    assert_eq!(car.wheels, 0);
    assert_eq!(car.seats, 0);
    assert_eq!(car.colour, "black");
    assert_eq!(car.description(), "This is a black car with 0 wheels and 0 seats.");
}

#[test]
fn builder_steps() {
    let mut builder = CarBuilder::new();
    assert_eq!(builder.build().description(), "This is a black car with 0 wheels and 0 seats.");

    builder.set_wheels(255);
    builder.set_seats(10);
    builder.set_colour("green".to_string());
    let first = builder.build();
    assert_eq!(first.description(), "This is a green car with 255 wheels and 10 seats.");

    builder.set_seats(100);
    let second = builder.build();
    assert_eq!(second.description(), "This is a green car with 255 wheels and 100 seats.");
    assert_eq!(first.seats, 10);

    let copy = second.clone();
    assert_eq!(copy.wheels, 255);
    assert_eq!(copy.seats, 100);
    assert_eq!(copy.colour, "green");
}

#[test]
fn builder_director_builds_the_same_car_again() {
    let mut director = CarBuilderDirector::new();
    let first = director.construct();
    let second = director.construct();
    assert_eq!(first.description(), second.description());
    assert_eq!(second.wheels, 4);
    assert_eq!(second.seats, 5);
    assert_eq!(second.colour, "red");
}

#[test]
fn test_factory_method() {
    let sedan_factory = SedanFactory{};
    let sedan = sedan_factory.make_car();
    assert_eq!(sedan.get_type(), "Sedan");

    let better_sedan_factory = BetterSedanFactory {};
    let better_sedan = better_sedan_factory.make_car();
    assert_eq!(better_sedan.get_type(), "Sedan");
}

#[test]
fn factory_method_hides_the_type() {
    let car: Box<dyn FactoryCar> = SedanFactory.make_car();
    assert_eq!(car.get_type(), "Sedan");
}

#[test]
fn test_prototype() {
    assert!(true);
}
