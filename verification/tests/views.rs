use palantir::Align;
use palantir::Button;
use palantir::Colors;
use palantir::Edges;
use palantir::Element;
use palantir::Grid;
use palantir::GridPosition;
use palantir::ItemView;
use palantir::ItemsView;
use palantir::Label;
use palantir::Px;
use palantir::Size;
use palantir::Stylable;
use palantir::Style;
use palantir::VStack;

fn px(x: f32) -> Px {
    Px::from_bits(x.to_bits())
}

fn label_text(e: &Element) -> &str {
    match e {
        Element::Label(l) => l.text(),
        _ => panic!("expected a label child"),
    }
}

#[test]
fn it_compiles() {
    VStack::default()
        .set_padding(Edges::from(10u32))
        .set_margin(Edges::from(5u32))
        .add_item(Element::Label(
            Label::from("Hello, world!").set_font_size(18).set_font_color(Colors::BLUE()),
        ))
        .add_item(Element::Button(
            Button::default()
                .set_width(Size::from(100u32))
                .set_background_color(Colors::RED())
                .set_item(Element::Label(
                    Label::from("Hello, world!")
                        .set_v_align(Align::Center)
                        .set_h_align(Align::Center)
                        .set_font_color(Colors::WHITE()),
                ))
                .onclick(|| {
                    println!("Button clicked!");
                }),
        ));
}

#[test]
fn default_equivalence() {
    let l = Label::from("");
    assert!(l.frag.style == Style::default());
    assert_eq!(l.frag.items.len(), 0);
    let b = Button::default();
    assert!(b.frag.style == Style::default());
    assert_eq!(b.frag.items.len(), 0);
    let v = VStack::default();
    assert!(v.frag.style == Style::default());
    assert_eq!(v.frag.items.len(), 0);
    let g = Grid::default();
    assert!(g.frag.style == Style::default());
    assert_eq!(g.frag.items.len(), 0);
    assert_eq!(g.rows(), 1);
    assert_eq!(g.columns(), 1);
}

#[test]
fn style_defaults() {
    let s = Style::default();
    assert!(s.width == Size::Auto);
    assert!(s.height == Size::Auto);
    assert!(s.min_width == Size::Auto);
    assert!(s.max_height == Size::Auto);
    assert_eq!(s.v_align, Align::Stretch);
    assert_eq!(s.h_align, Align::Stretch);
    assert!(s.padding == Edges::all(px(2.0)));
    assert!(s.margin == Edges::all(px(2.0)));
    assert_eq!(s.font_size, 12);
    assert_eq!(s.color, Colors::WHITE());
    assert_eq!(s.background_color, Colors::TRANSPARENT());
    assert!(s.border_width == Edges::all(px(0.0)));
    assert_eq!(s.border_color, Colors::WHITE());
    assert_eq!(s.border_radius.to_bits(), 0.0f32.to_bits());
}

#[test]
fn chain_identity_reads_back() {
    let v = VStack::default()
        .set_width(Size::Fixed(px(3.5)))
        .set_height(Size::Fixed(px(4.5)))
        .set_min_width(Size::Fixed(px(0.5)))
        .set_min_height(Size::Fixed(px(0.25)))
        .set_max_width(Size::Fixed(px(9.5)))
        .set_max_height(Size::Fixed(px(8.5)))
        .set_padding(Edges::all(px(1.0)))
        .set_margin(Edges::all(px(2.5)))
        .set_font_size(31)
        .set_font_color(Colors::GREEN())
        .set_background_color(Colors::BLACK())
        .set_border_width(Edges::all(px(0.5)))
        .set_border_color(Colors::RED())
        .set_border_radius(px(6.0))
        .set_v_align(Align::End)
        .set_h_align(Align::Start);
    let s = &v.frag.style;
    assert!(s.width == Size::Fixed(px(3.5)));
    assert!(s.height == Size::Fixed(px(4.5)));
    assert!(s.min_width == Size::Fixed(px(0.5)));
    assert!(s.min_height == Size::Fixed(px(0.25)));
    assert!(s.max_width == Size::Fixed(px(9.5)));
    assert!(s.max_height == Size::Fixed(px(8.5)));
    assert!(s.padding == Edges::all(px(1.0)));
    assert!(s.margin == Edges::all(px(2.5)));
    assert_eq!(s.font_size, 31);
    assert_eq!(s.color, Colors::GREEN());
    assert_eq!(s.background_color, Colors::BLACK());
    assert!(s.border_width == Edges::all(px(0.5)));
    assert_eq!(s.border_color, Colors::RED());
    assert_eq!(s.border_radius.to_bits(), 6.0f32.to_bits());
}

#[test]
fn disjoint_setters_commute() {
    let a = VStack::default().set_width(Size::Fixed(px(1.0))).set_height(Size::Fixed(px(2.0)));
    let b = VStack::default().set_height(Size::Fixed(px(2.0))).set_width(Size::Fixed(px(1.0)));
    assert!(a.frag.style == b.frag.style);
}

#[test]
fn same_setter_last_write_wins() {
    let a = VStack::default().set_width(Size::Fixed(px(1.0))).set_width(Size::Fixed(px(2.0)));
    assert!(a.frag.style.width == Size::Fixed(px(2.0)));
    let b = VStack::default().set_width(Size::Fixed(px(1.0))).set_width(Size::Fixed(px(1.25)));
    assert!(b.frag.style.width != Size::Fixed(px(1.0)));
}

#[test]
fn append_order() {
    let v = VStack::default()
        .add_item(Element::Label(Label::from("a")))
        .add_item(Element::Label(Label::from("b")))
        .add_item(Element::Label(Label::from("c")));
    let items = v.items();
    assert_eq!(items.len(), 3);
    assert_eq!(label_text(&items[0]), "a");
    assert_eq!(label_text(&items[1]), "b");
    assert_eq!(label_text(&items[2]), "c");
}

#[test]
fn vstack_add_is_add_item() {
    let v = VStack::default().add(Element::Label(Label::from("a"))).add(Element::Label(
        Label::from("b"),
    ));
    assert_eq!(v.items().len(), 2);
    assert_eq!(label_text(&v.items()[0]), "a");
}

#[test]
fn set_item_replacement() {
    let b = Button::default()
        .set_item(Element::Label(Label::from("a")))
        .set_item(Element::Label(Label::from("b")));
    assert_eq!(b.frag.items.len(), 1);
    assert_eq!(label_text(b.get_item().unwrap()), "b");
    let c = Button::default().item(Element::Label(Label::from("x")));
    assert_eq!(label_text(c.get_item().unwrap()), "x");
    assert!(Button::default().get_item().is_none());
}

#[test]
fn label_scenario() {
    let l = Label::from("hi").set_font_size(18).set_font_color(Colors::BLUE());
    assert_eq!(l.text().as_str(), "hi");
    assert_eq!(l.frag.style.font_size, 18);
    assert_eq!(l.frag.style.color, Colors::BLUE());
    assert_eq!(l.frag.items.len(), 0);
}

#[test]
fn button_scenario() {
    let b = Button::default().set_background_color(Colors::RED()).set_item(Element::Label(
        Label::from("x"),
    ));
    assert_eq!(b.frag.style.background_color, Colors::RED());
    assert_eq!(b.frag.items.len(), 1);
    assert!(matches!(b.frag.items[0], Element::Label(_)));
}

#[test]
fn vstack_scenario() {
    let v = VStack::default()
        .set_padding(Edges::all(px(10.0)))
        .set_margin(Edges::all(px(5.0)))
        .add_item(Element::Label(Label::from("a")))
        .add_item(Element::Label(Label::from("b")));
    assert!(v.frag.style.padding == Edges::all(px(10.0)));
    assert!(v.frag.style.margin == Edges::all(px(5.0)));
    assert_eq!(v.items().len(), 2);
    assert_eq!(label_text(&v.items()[0]), "a");
    assert_eq!(label_text(&v.items()[1]), "b");
}

#[test]
fn grid_scenario() {
    let g = Grid::default()
        .set_rows_columns(2, 3)
        .add_item(GridPosition::from((0u32, 0u32)), Element::Label(Label::from("a")))
        .add_item(GridPosition::from((1u32, 2u32, 1u32, 1u32)), Element::Label(Label::from("b")));
    assert_eq!(g.rows(), 2);
    assert_eq!(g.columns(), 3);
    assert_eq!(g.items().len(), 2);
    assert_eq!(g.positions().len(), 2);
    assert_eq!(g.positions()[1].column, 2);
    assert_eq!(label_text(&g.items()[1]), "b");
    let h = Grid::default().rows_cols(4, 5);
    assert_eq!(h.rows(), 4);
    assert_eq!(h.columns(), 5);
}

#[test]
fn handler_runs_exactly_once() {
    let count = std::rc::Rc::new(std::cell::Cell::new(0u32));
    let seen = count.clone();
    let b = Button::default()
        .onclick(move || {
            seen.set(seen.get() + 1);
        })
        .set_item(Element::Label(Label::from("go")));
    let h = b.into_handler();
    assert!(h.is_some());
    assert_eq!(count.get(), 0);
    h.unwrap().invoke();
    assert_eq!(count.get(), 1);
}

#[test]
fn onclick_installs_and_overwrites() {
    let hit = std::rc::Rc::new(std::cell::Cell::new(0u32));
    let first = hit.clone();
    let second = hit.clone();
    assert!(Button::default().into_handler().is_none());
    let b = Button::default()
        .onclick(move || {
            first.set(first.get() + 10);
        })
        .onclick(move || {
            second.set(second.get() + 1);
        });
    b.into_handler().unwrap().invoke();
    assert_eq!(hit.get(), 1);
}

#[test]
fn fixed_and_auto_sizes() {
    let v = VStack::default().set_width(Size::Fixed(px(100.0))).set_height(Size::Auto);
    assert!(v.frag.style.width == Size::Fixed(px(100.0)));
    assert!(v.frag.style.height == Size::Auto);
    let w = VStack::default().set_width(Size::Fixed(px(100.0))).set_height(Size::Auto);
    assert!(v.frag.style == w.frag.style);
}

#[test]
fn element_from_views() {
    let e = Element::from(Label::from("t"));
    assert!(matches!(e, Element::Label(_)));
    let v = VStack::default()
        .add_item(Element::from(Button::default()))
        .add_item(Element::from(Grid::default()))
        .add_item(Element::from(VStack::default()));
    assert!(matches!(v.items()[0], Element::Button(_)));
    assert!(matches!(v.items()[1], Element::Grid(_)));
    assert!(matches!(v.items()[2], Element::VStack(_)));
}
