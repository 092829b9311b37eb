//! The generated text at work. The traits and implementations in this file
//! are the text that the generators give for the declarations below,
//! written out as code without the `#[doc(hidden)]` and `#[inline]`
//! attributes; the first tests hold the two against each other.

use inheritance::linker::delegating_struct;
use inheritance::{derive_Inheritance, inheritable, inheritable_specialized};

const IS_POINT: &str = "trait IsPoint {
    fn x(&self) -> f32;
    fn y(&self) -> f32;
    fn name(&self) -> String {
        format!(\"Point({}, {})\", self.x(), self.y())
    }
    fn shift(&mut self, dx: f32, dy: f32);
    fn blend(&self, first: &str, second: u32, third: char) -> String;
}";

const IS_POINT_LINKAGE: &str = "
pub(in crate) trait __InheritsIsPoint__ {
    type __Parent__: IsPoint;
    fn __parent__(self: &'_ Self) -> &'_ Self::__Parent__;
    fn __parent_mut__(self: &'_ mut Self) -> &'_ mut Self::__Parent__;
}
impl<__inheritable_T__: __InheritsIsPoint__> IsPoint for __inheritable_T__ {
    fn x(&self) -> f32 { self.__parent__().x() }
    fn y(&self) -> f32 { self.__parent__().y() }
    fn name(&self) -> String { self.__parent__().name() }
    fn shift(&mut self, arg_1: f32, arg_2: f32) { self.__parent_mut__().shift(arg_1, arg_2) }
    fn blend(&self, arg_1: &str, arg_2: u32, arg_3: char) -> String { self.__parent__().blend(arg_1, arg_2, arg_3) }
}";

const COLORED: &str = "trait Colored {
    fn color(self: &'_ Self) -> Color;
    fn repaint(self: &'_ mut Self, color: Color);
}";

const COLORED_LINKAGE: &str = "
pub(in crate) trait __InheritsColored__ {
    type __Parent__: Colored;
    fn __parent__(self: &'_ Self) -> &'_ Self::__Parent__;
    fn __parent_mut__(self: &'_ mut Self) -> &'_ mut Self::__Parent__;
}
impl<__inheritable_T__: __InheritsColored__> Colored for __inheritable_T__ {
    fn color(self: &'_ Self) -> Color { self.__parent__().color() }
    fn repaint(self: &'_ mut Self, arg_1: Color) { self.__parent_mut__().repaint(arg_1) }
}";

const NAMED_POINT: &str = "struct NamedPoint {
    #[inherits(IsPoint)]
    point: Point,
    name: &'static str,
    #[inherits(Colored)]
    pigments: Color,
}";

const NAMED_POINT_LINKED: &str = "struct NamedPoint {
    point: Point,
    name: &'static str,
    pigments: Color
}
impl __InheritsIsPoint__ for NamedPoint {
    type __Parent__ = Point;
    fn __parent__(self: &'_ Self) -> &'_ Self::__Parent__ { &self.point }
    fn __parent_mut__(self: &'_ mut Self) -> &'_ mut Self::__Parent__ { &mut self.point }
}
impl __InheritsColored__ for NamedPoint {
    type __Parent__ = Color;
    fn __parent__(self: &'_ Self) -> &'_ Self::__Parent__ { &self.pigments }
    fn __parent_mut__(self: &'_ mut Self) -> &'_ mut Self::__Parent__ { &mut self.pigments }
}";

const NEW_POINT: &str = "struct NewPoint(u8, #[inherits(IsPoint)] Point);";

const NEW_POINT_LINKED: &str = "struct NewPoint(u8, Point);
impl __InheritsIsPoint__ for NewPoint {
    type __Parent__ = Point;
    fn __parent__(self: &'_ Self) -> &'_ Self::__Parent__ { &self.1 }
    fn __parent_mut__(self: &'_ mut Self) -> &'_ mut Self::__Parent__ { &mut self.1 }
}";

trait IsPoint {
    fn x(&self) -> f32;
    fn y(&self) -> f32;
    fn name(&self) -> String {
        format!("Point({}, {})", self.x(), self.y())
    }
    fn shift(&mut self, dx: f32, dy: f32);
    fn blend(&self, first: &str, second: u32, third: char) -> String;
}

#[allow(non_camel_case_types)]
pub(in crate) trait __InheritsIsPoint__ {
    type __Parent__: IsPoint;
    fn __parent__(self: &'_ Self) -> &'_ Self::__Parent__;
    fn __parent_mut__(self: &'_ mut Self) -> &'_ mut Self::__Parent__;
}
#[allow(non_camel_case_types)]
impl<__inheritable_T__: __InheritsIsPoint__> IsPoint for __inheritable_T__ {
    fn x(&self) -> f32 { self.__parent__().x() }
    fn y(&self) -> f32 { self.__parent__().y() }
    fn name(&self) -> String { self.__parent__().name() }
    fn shift(&mut self, arg_1: f32, arg_2: f32) { self.__parent_mut__().shift(arg_1, arg_2) }
    fn blend(&self, arg_1: &str, arg_2: u32, arg_3: char) -> String { self.__parent__().blend(arg_1, arg_2, arg_3) }
}

trait Colored {
    fn color(self: &'_ Self) -> Color;
    fn repaint(self: &'_ mut Self, color: Color);
}

#[allow(non_camel_case_types)]
pub(in crate) trait __InheritsColored__ {
    type __Parent__: Colored;
    fn __parent__(self: &'_ Self) -> &'_ Self::__Parent__;
    fn __parent_mut__(self: &'_ mut Self) -> &'_ mut Self::__Parent__;
}
#[allow(non_camel_case_types)]
impl<__inheritable_T__: __InheritsColored__> Colored for __inheritable_T__ {
    fn color(self: &'_ Self) -> Color { self.__parent__().color() }
    fn repaint(self: &'_ mut Self, arg_1: Color) { self.__parent_mut__().repaint(arg_1) }
}

struct NamedPoint {
    point: Point,
    name: &'static str,
    pigments: Color
}
impl __InheritsIsPoint__ for NamedPoint {
    type __Parent__ = Point;
    fn __parent__(self: &'_ Self) -> &'_ Self::__Parent__ { &self.point }
    fn __parent_mut__(self: &'_ mut Self) -> &'_ mut Self::__Parent__ { &mut self.point }
}
impl __InheritsColored__ for NamedPoint {
    type __Parent__ = Color;
    fn __parent__(self: &'_ Self) -> &'_ Self::__Parent__ { &self.pigments }
    fn __parent_mut__(self: &'_ mut Self) -> &'_ mut Self::__Parent__ { &mut self.pigments }
}

struct NewPoint(u8, Point);
impl __InheritsIsPoint__ for NewPoint {
    type __Parent__ = Point;
    fn __parent__(self: &'_ Self) -> &'_ Self::__Parent__ { &self.1 }
    fn __parent_mut__(self: &'_ mut Self) -> &'_ mut Self::__Parent__ { &mut self.1 }
}

#[derive(Debug, Clone, PartialEq)]
struct Point {
    x: f32,
    y: f32,
}

impl IsPoint for Point {
    fn x(&self) -> f32 {
        self.x
    }
    fn y(&self) -> f32 {
        self.y
    }
    fn shift(&mut self, dx: f32, dy: f32) {
        self.x += dx;
        self.y += dy;
    }
    fn blend(&self, first: &str, second: u32, third: char) -> String {
        format!("{}|{}|{}|{}", first, second, third, self.x)
    }
}

#[derive(Debug, Clone, Copy, PartialEq, Eq)]
enum Color {
    Red,
    Green,
    Blue,
}

impl Colored for Color {
    fn color(self: &'_ Self) -> Color {
        *self
    }
    fn repaint(self: &'_ mut Self, color: Color) {
        *self = color;
    }
}

fn spell(stream: proc_macro2::TokenStream, out: &mut Vec<String>) {
    for tree in stream {
        match tree {
            proc_macro2::TokenTree::Group(group) => {
                out.push(format!("open {:?}", group.delimiter()));
                spell(group.stream(), out);
                out.push(format!("close {:?}", group.delimiter()));
            }
            proc_macro2::TokenTree::Punct(punct) => out.push(punct.as_char().to_string()),
            proc_macro2::TokenTree::Ident(ident) => out.push(ident.to_string()),
            proc_macro2::TokenTree::Literal(literal) => out.push(literal.to_string()),
        }
    }
}

fn tokens(text: &str) -> Vec<String> {
    let mut out = Vec::new();
    spell(text.parse::<proc_macro2::TokenStream>().unwrap(), &mut out);
    out
}

fn without_attributes(text: &str) -> String {
    text.replace("#[doc(hidden)] ", "").replace("#[inline] ", "")
}

fn sample() -> NamedPoint {
    NamedPoint { point: Point { x: 42., y: 27. }, name: "Carré", pigments: Color::Red }
}

#[test]
fn annotator_gives_the_traits_and_implementations_of_this_file() {
    let point = inheritable("", IS_POINT).unwrap();
    assert_eq!(tokens(&without_attributes(&point)), tokens(&format!("{IS_POINT}{IS_POINT_LINKAGE}")));
    assert_eq!(point.matches("#[inline] ").count(), 5);
    assert_eq!(point.matches("#[doc(hidden)] ").count(), 1);
    let colored = inheritable("", COLORED).unwrap();
    assert_eq!(tokens(&without_attributes(&colored)), tokens(&format!("{COLORED}{COLORED_LINKAGE}")));
}

#[test]
fn linker_gives_the_structs_and_implementations_of_this_file() {
    let named = delegating_struct(NAMED_POINT).unwrap();
    assert_eq!(tokens(&without_attributes(&named)), tokens(NAMED_POINT_LINKED));
    let tuple = delegating_struct(NEW_POINT).unwrap();
    assert_eq!(tokens(&without_attributes(&tuple)), tokens(NEW_POINT_LINKED));
    let beside = derive_Inheritance(NEW_POINT).unwrap();
    assert_eq!(tokens(&format!("struct NewPoint(u8, Point); {}", without_attributes(&beside))), tokens(NEW_POINT_LINKED));
}

#[test]
fn delegated_call_returns_what_the_field_returns() {
    let point = sample();
    assert_eq!(point.x(), point.point.x());
    assert_eq!(point.x(), 42.);
    assert_eq!(point.y(), point.point.y());
    assert_eq!(point.y(), 27.);
    assert_eq!(point.name(), point.point.name());
    assert_eq!(point.name(), "Point(42, 27)");
    assert_eq!(point.color(), point.pigments.color());
    assert_eq!(point.color(), Color::Red);
    let tuple = NewPoint(7, Point { x: 1., y: 2. });
    assert_eq!(tuple.x(), 1.);
    assert_eq!(tuple.name(), tuple.1.name());
    assert_eq!(tuple.0, 7);
}

#[test]
fn arguments_arrive_in_the_order_they_were_given() {
    let point = sample();
    assert_eq!(point.blend("a", 2, 'c'), "a|2|c|42");
    assert_eq!(point.blend("a", 2, 'c'), point.point.blend("a", 2, 'c'));
    assert_ne!(point.blend("c", 2, 'a'), point.blend("a", 2, 'c'));
}

#[test]
fn mutation_through_the_struct_changes_the_delegated_field_only() {
    let mut point = sample();
    point.shift(1., -2.);
    assert_eq!(point.point, Point { x: 43., y: 25. });
    assert_eq!(point.x(), 43.);
    assert_eq!(point.point.x(), 43.);
    assert_eq!(point.y(), 25.);
    assert_eq!(point.name, "Carré");
    assert_eq!(point.pigments, Color::Red);
    let mut direct = Point { x: 42., y: 27. };
    direct.shift(1., -2.);
    assert_eq!(point.point, direct);
    let mut tuple = NewPoint(7, Point { x: 0., y: 0. });
    tuple.shift(3., 4.);
    assert_eq!(tuple.0, 7);
    assert_eq!(tuple.1, Point { x: 3., y: 4. });
}

#[test]
fn two_delegations_do_not_disturb_each_other() {
    let mut point = sample();
    point.repaint(Color::Blue);
    assert_eq!(point.color(), Color::Blue);
    assert_eq!(point.point, Point { x: 42., y: 27. });
    point.shift(1., 1.);
    assert_eq!(point.color(), Color::Blue);
    assert_eq!(point.x(), 43.);
    point.repaint(Color::Green);
    assert_eq!(point.name(), "Point(43, 28)");
    assert_eq!(point.pigments, Color::Green);
}

#[test]
fn override_mode_opens_every_method_and_changes_nothing_else() {
    let plain = inheritable("", IS_POINT).unwrap();
    let open = inheritable_specialized("", IS_POINT).unwrap();
    assert!(!plain.contains("default"));
    assert_eq!(open.matches("#[inline] default fn ").count(), 5);
    assert_eq!(open.replace("#[inline] default fn ", "#[inline] fn "), plain);
    assert!(open.contains("#[inline] default fn name(& self) -> String { self.__parent__().name() }"));
    assert!(open.contains("#[inline] default fn x(& self) -> f32 { self.__parent__().x() }"));
}
