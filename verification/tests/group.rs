use druid_components::env::color::{Color, ColorEnv};
use druid_components::env::theme::Env;
use druid_components::material::geometry::{Circle, Point, Size};
use druid_components::material::host::{Layout, PaintCtx, PaintOp};
use druid_components::material::radio::{Child, Column, CrossAxisAlignment, Radio, RadioGroup};

fn abc() -> Column<String, i32> {
    RadioGroup::new(vec![("A".to_string(), 1), ("B".to_string(), 2), ("C".to_string(), 3)])
}

fn radios<L, T: Clone + PartialEq>(column: &Column<L, T>) -> Vec<&Radio<L, T>> {
    let mut found = Vec::new();
    for child in column.children.iter() {
        if let Child::Radio(radio) = child {
            found.push(radio);
        }
    }
    found
}

#[test]
fn group_stacks_radios_with_spacers_between() {
    let column = abc();
    assert_eq!(column.cross_axis_alignment, CrossAxisAlignment::Start);
    assert_eq!(column.children.len(), 5);
    for (i, child) in column.children.iter().enumerate() {
        match child {
            Child::Spacer => assert_eq!(i % 2, 1),
            Child::Radio(_) => assert_eq!(i % 2, 0),
        }
    }
    let radios = radios(&column);
    assert_eq!(radios.len(), 3);
    assert_eq!(radios[0].label(), "A");
    assert_eq!(*radios[0].variant(), 1);
    assert_eq!(radios[1].label(), "B");
    assert_eq!(*radios[1].variant(), 2);
    assert_eq!(radios[2].label(), "C");
    assert_eq!(*radios[2].variant(), 3);
    for radio in radios {
        assert_eq!(radio.expanding_time(), None);
        assert_eq!(radio.expanding_radius(), None);
    }
}

#[test]
fn group_of_none_is_empty() {
    let column: Column<String, i32> = RadioGroup::new(Vec::new());
    assert_eq!(column.cross_axis_alignment, CrossAxisAlignment::Start);
    assert!(column.children.is_empty());
}

#[test]
fn group_of_one_has_no_spacer() {
    let column = RadioGroup::new(vec![("Only", 'x')]);
    assert_eq!(column.children.len(), 1);
    assert!(matches!(&column.children[0], Child::Radio(radio) if *radio.variant() == 'x'));
}

#[test]
fn group_of_two_has_one_spacer() {
    let column = RadioGroup::new(vec![("On".to_string(), true), ("Off".to_string(), false)]);
    assert_eq!(column.children.len(), 3);
    assert!(matches!(&column.children[0], Child::Radio(radio) if radio.label() == "On"));
    assert!(matches!(&column.children[1], Child::Spacer));
    assert!(matches!(&column.children[2], Child::Radio(radio) if radio.label() == "Off"));
}

#[test]
fn group_takes_values_that_only_clone() {
    let column = RadioGroup::new(vec![(1u8, "red".to_string()), (2u8, "green".to_string())]);
    let radios = radios(&column);
    assert_eq!(*radios[0].label(), 1);
    assert_eq!(radios[1].variant(), "green");
    assert!(radios[1].is_selected(&"green".to_string()));
    assert!(!radios[0].is_selected(&"green".to_string()));
}

#[test]
fn scenario_initial_render_of_three() {
    let mut env = Env::new();
    env.set_basic_widget_height(24_000);
    ColorEnv::default().setup_env(&mut env);
    let column = abc();
    let radios = radios(&column);
    let data = 2;
    let at_rest = PaintCtx { is_focused: false, is_hot: false };
    let text = Layout { size: Size { width: 40_000, height: 14_000 }, baseline_offset: 3_000 };
    let center = Point { x: 22_000, y: 22_000 };
    let label = PaintOp::Label { origin: Point { x: 44_000, y: 15_000 } };
    let primary = Color::Rgba32(0x6200EEFF);
    let light_border = Color::Rgba32(0x444444FF);
    assert_eq!(
        radios[1].paint(&at_rest, &text, &data, &env),
        vec![
            PaintOp::Stroke { circle: Circle { center, radius: 9_000 }, color: primary, width: 2_000 },
            PaintOp::Fill { circle: Circle { center, radius: 5_000 }, color: primary, opacity: None },
            label,
        ]
    );
    for i in [0, 2] {
        assert_eq!(
            radios[i].paint(&at_rest, &text, &data, &env),
            vec![
                PaintOp::Stroke {
                    circle: Circle { center, radius: 9_000 },
                    color: light_border,
                    width: 2_000,
                },
                label,
            ]
        );
    }
    let selected: Vec<bool> = radios.iter().map(|radio| radio.is_selected(&data)).collect();
    assert_eq!(selected, vec![false, true, false]);
}
