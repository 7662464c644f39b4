use design_patterns::adapter::{Client, IPhone, TargetInterface, USBCharger};
use design_patterns::bridge::{ColouredShape, DrawingAPI, DrawingBlue, DrawingRed, Shape};
use design_patterns::composite::{CompositeGraphic, Ellipse, Graphic};
use design_patterns::decorator::{ColouredShape as Coloured, Shape as Described};
use design_patterns::facade::{CodeGenerator, Compiler, Linker, Optimiser, Parser};
use design_patterns::proxy::{Car, ICar, ProxyCar};

#[test]
fn test_adapter() {
    let usb_charger = USBCharger::new();
    assert_eq!(Client::do_stuff_with_usb(&usb_charger), "Is charging using a USB-C adapter");
}

#[test]
fn adapter_parts() {
    assert_eq!(IPhone.charge(), "Is charging");
    assert_eq!(USBCharger::new().recharge(), "Is charging using a USB-C adapter");
}

#[test]
fn test_bridge() {
    let shape_blue = ColouredShape::new(DrawingBlue);
    assert_eq!(shape_blue.draw(), "Shape drawing a blue circle and a blue rectangle");

    let shape_red = ColouredShape::new(DrawingRed);
    assert_eq!(shape_red.draw(), "Shape drawing a red circle and a red rectangle");
}

#[test]
fn bridge_parts() {
    assert_eq!(DrawingRed.draw_circle(), "red circle");
    assert_eq!(DrawingRed.draw_rectangle(), "red rectangle");
    assert_eq!(DrawingBlue.draw_circle(), "blue circle");
    assert_eq!(DrawingBlue.draw_rectangle(), "blue rectangle");
    let shape = ColouredShape::new(DrawingBlue);
    assert_eq!(shape.draw_circle(), "blue circle");
    assert_eq!(shape.draw_rectangle(), "blue rectangle");
}

#[test]
fn test_composite() {
    let ellipse1 = Ellipse{};
    let ellipse2 = Ellipse{};
    let ellipse3 = Ellipse{};
    let ellipse4 = Ellipse{};

    let mut graphic1 = CompositeGraphic::new();
    let mut graphic2 = CompositeGraphic::new();
    let mut graphic3 = CompositeGraphic::new();

    graphic2.add(Box::new(ellipse1));
    graphic2.add(Box::new(ellipse2));
    graphic2.add(Box::new(ellipse3));

    graphic3.add(Box::new(ellipse4));

    graphic1.add(Box::new(graphic2));
    graphic1.add(Box::new(graphic3));

    assert_eq!(graphic1.print(), "EllipseEllipseEllipseEllipse");
}

#[test]
fn composite_keeps_the_order_and_removes_the_last() {
    let mut graphic = CompositeGraphic::new();
    assert_eq!(graphic.print(), "");
    graphic.remove();
    assert_eq!(graphic.print(), "");

    let mut pair = CompositeGraphic::new();
    pair.add(Box::new(Ellipse));
    pair.add(Box::new(Ellipse));

    graphic.add(Box::new(Ellipse));
    graphic.add(Box::new(pair));
    graphic.add(Box::new(CompositeGraphic::new()));
    assert_eq!(graphic.print(), "EllipseEllipseEllipse");

    graphic.remove();
    assert_eq!(graphic.print(), "EllipseEllipseEllipse");
    graphic.remove();
    assert_eq!(graphic.print(), "Ellipse");
    graphic.add(Box::new(Ellipse));
    assert_eq!(graphic.print(), "EllipseEllipse");
    graphic.remove();
    graphic.remove();
    graphic.remove();
    assert_eq!(graphic.print(), "");
    assert_eq!(Ellipse.print(), "Ellipse");
}

/// A simple circle
struct Circle {
    radius: f32,
}

impl Described for Circle {
    fn description(&self) -> String {
        format!("Circle of radius {}", self.radius)
    }
}

#[test]
fn test_decorator() {
    let circle = Circle { radius: 3.5 };
    let red_circle = Coloured::new("red", circle);
    assert_eq!("Circle of radius 3.5 which is coloured red", red_circle.description());

    let green_red_circle = Coloured::new("green", red_circle);
    assert_eq!("Circle of radius 3.5 which is coloured red which is coloured green",
               green_red_circle.description());
}

#[test]
fn decorator_empty_colour() {
    let shape = Coloured::new("", Circle { radius: 1.0 });
    assert_eq!(shape.description(), "Circle of radius 1 which is coloured ");
}

#[test]
fn test_facade() {
    let compiler = Compiler::new();
    let mut exp_result = String::from("parsing source code");
    exp_result.push_str("\ngenerating machine code");
    exp_result.push_str("\noptimising generate machine code");
    exp_result.push_str("\nlinking code");

    assert_eq!(compiler.run(), exp_result);
}

#[test]
fn facade_subsystems() {
    assert_eq!(Parser.run(), "parsing source code");
    assert_eq!(CodeGenerator.run(), "generating machine code");
    assert_eq!(Optimiser.run(), "optimising generate machine code");
    assert_eq!(Linker.run(), "linking code");
    assert_eq!(
        Compiler::new().run(),
        "parsing source code\ngenerating machine code\noptimising generate machine code\nlinking code"
    );
}

#[test]
fn test_proxy() {
    let car = Car {};
    let proxy = ProxyCar::new(16, &car);
    assert_eq!(proxy.drive(), "driver is too young");

    let proxy_2 = ProxyCar::new(19, &car);
    assert_eq!(proxy_2.drive(), "car is driving");
}

#[test]
fn proxy_age_limit() {
    let car = Car {};
    assert_eq!(car.drive(), "car is driving");
    assert_eq!(ProxyCar::new(18, &car).drive(), "driver is too young");
    assert_eq!(ProxyCar::new(-1, &car).drive(), "driver is too young");
    assert_eq!(ProxyCar::new(i32::MIN, &car).drive(), "driver is too young");
    assert_eq!(ProxyCar::new(i32::MAX, &car).drive(), "car is driving");

    let behind: &dyn ICar = &car;
    assert_eq!(ProxyCar::new(40, behind).drive(), "car is driving");

    let inner = ProxyCar::new(19, &car);
    assert_eq!(ProxyCar::new(19, &inner).drive(), "car is driving");
    assert_eq!(ProxyCar::new(17, &inner).drive(), "driver is too young");
}
