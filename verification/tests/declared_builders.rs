use yadir::cell::DIObj;
use yadir::contracts::DIBuilder;
use yadir::declaration::{
    plan, BuildMethod, Construction, DepsAttr, FieldsKind, Plan, StructAttr,
};
use yadir::key::{Slot, TypeTag};
use yadir::manager::DIManager;

const BAR: TypeTag = TypeTag(10);
const BAZ: TypeTag = TypeTag(11);
const FOO: TypeTag = TypeTag(12);

#[derive(Clone, Default, Debug, PartialEq)]
struct Bar;

#[derive(Clone, Default, Debug, PartialEq)]
struct Baz;

#[derive(Clone, Default, Debug, PartialEq)]
struct Named {
    bar: Bar,
    baz: Baz,
}

impl Named {
    fn new(bar: Bar, baz: Baz) -> Self {
        Self { bar, baz }
    }
}

#[derive(Clone, Default, Debug, PartialEq)]
struct Unnamed(Bar, Baz);

impl Unnamed {
    fn new(bar: Bar, baz: Baz) -> Self {
        Self(bar, baz)
    }
}

#[derive(Clone, Debug, PartialEq)]
enum Part {
    Bar(Bar),
    Baz(Baz),
    Named(Named),
    Unnamed(Unnamed),
}

impl Part {
    fn bar(self) -> Bar {
        match self {
            Part::Bar(bar) => bar,
            _ => panic!("not a bar"),
        }
    }

    fn baz(self) -> Baz {
        match self {
            Part::Baz(baz) => baz,
            _ => panic!("not a baz"),
        }
    }
}

impl DIBuilder for Bar {
    type Input = ();
    type Output = Part;

    fn output_type() -> TypeTag {
        BAR
    }

    fn input_shape() -> Vec<Slot> {
        vec![]
    }

    fn build(_: Self::Input) -> Self::Output {
        Part::Bar(Bar)
    }
}

impl DIBuilder for Baz {
    type Input = ();
    type Output = Part;

    fn output_type() -> TypeTag {
        BAZ
    }

    fn input_shape() -> Vec<Slot> {
        vec![]
    }

    fn build(_: Self::Input) -> Self::Output {
        Part::Baz(Baz)
    }
}

type TwoDeps = (DIObj<Part>, (DIObj<Part>, ()));

fn declared(method: Option<&str>, kind: FieldsKind) -> Plan {
    let attrs = match method {
        Some(name) => vec![StructAttr::BuildMethod {
            name: Some(String::from(name)),
        }],
        None => vec![],
    };
    plan(&attrs, kind, &vec![vec![DepsAttr::Plain], vec![DepsAttr::Plain]]).unwrap()
}

fn shape(made: &Plan) -> Vec<Slot> {
    let tags = [BAR, BAZ];
    made.deps
        .iter()
        .map(|dep| Slot::with_key(tags[dep.field], dep.code.clone()))
        .collect()
}

fn named(made: &Plan, input: TwoDeps) -> Part {
    let bar = input.0.extract().bar();
    let input = input.1;
    let baz = input.0.extract().baz();
    Part::Named(match made.construction {
        Construction::NamedFields => Named { bar, baz },
        Construction::New => Named::new(bar, baz),
        Construction::Defaulted => Named::default(),
        _ => panic!("not a construction of named fields"),
    })
}

fn unnamed(made: &Plan, input: TwoDeps) -> Part {
    let field_0 = input.0.extract().bar();
    let input = input.1;
    let field_1 = input.0.extract().baz();
    Part::Unnamed(match made.construction {
        Construction::UnnamedFields => Unnamed(field_0, field_1),
        Construction::New => Unnamed::new(field_0, field_1),
        Construction::Defaulted => Unnamed::default(),
        _ => panic!("not a construction of unnamed fields"),
    })
}

struct NamedDirect;

impl DIBuilder for NamedDirect {
    type Input = TwoDeps;
    type Output = Part;

    fn output_type() -> TypeTag {
        FOO
    }

    fn input_shape() -> Vec<Slot> {
        shape(&declared(None, FieldsKind::Named))
    }

    fn build(input: Self::Input) -> Self::Output {
        named(&declared(None, FieldsKind::Named), input)
    }
}

struct UnnamedDirect;

impl DIBuilder for UnnamedDirect {
    type Input = TwoDeps;
    type Output = Part;

    fn output_type() -> TypeTag {
        FOO
    }

    fn input_shape() -> Vec<Slot> {
        shape(&declared(None, FieldsKind::Unnamed))
    }

    fn build(input: Self::Input) -> Self::Output {
        unnamed(&declared(None, FieldsKind::Unnamed), input)
    }
}

struct NamedNew;

impl DIBuilder for NamedNew {
    type Input = TwoDeps;
    type Output = Part;

    fn output_type() -> TypeTag {
        FOO
    }

    fn input_shape() -> Vec<Slot> {
        shape(&declared(Some("new"), FieldsKind::Named))
    }

    fn build(input: Self::Input) -> Self::Output {
        named(&declared(Some("new"), FieldsKind::Named), input)
    }
}

struct UnnamedNew;

impl DIBuilder for UnnamedNew {
    type Input = TwoDeps;
    type Output = Part;

    fn output_type() -> TypeTag {
        FOO
    }

    fn input_shape() -> Vec<Slot> {
        shape(&declared(Some("new"), FieldsKind::Unnamed))
    }

    fn build(input: Self::Input) -> Self::Output {
        unnamed(&declared(Some("new"), FieldsKind::Unnamed), input)
    }
}

struct NamedDefault;

impl DIBuilder for NamedDefault {
    type Input = TwoDeps;
    type Output = Part;

    fn output_type() -> TypeTag {
        FOO
    }

    fn input_shape() -> Vec<Slot> {
        shape(&declared(Some("default"), FieldsKind::Named))
    }

    fn build(input: Self::Input) -> Self::Output {
        named(&declared(Some("default"), FieldsKind::Named), input)
    }
}

struct UnnamedDefault;

impl DIBuilder for UnnamedDefault {
    type Input = TwoDeps;
    type Output = Part;

    fn output_type() -> TypeTag {
        FOO
    }

    fn input_shape() -> Vec<Slot> {
        shape(&declared(Some("default"), FieldsKind::Unnamed))
    }

    fn build(input: Self::Input) -> Self::Output {
        unnamed(&declared(Some("default"), FieldsKind::Unnamed), input)
    }
}

#[test]
fn test_di_builder_proc_macro_for_all_named_fields_as_deps() {
    assert_eq!(
        declared(None, FieldsKind::Named).construction,
        Construction::NamedFields
    );

    let mut manager = DIManager::default();
    manager.build::<Bar>();
    manager.build::<Baz>();
    let foo = manager.build::<NamedDirect>();

    assert!(foo.is_some());
    assert_eq!(foo.unwrap().extract(), Part::Named(Named { bar: Bar, baz: Baz }));
}

#[test]
fn test_di_builder_proc_macro_for_all_unnamed_fields_as_deps() {
    assert_eq!(
        declared(None, FieldsKind::Unnamed).construction,
        Construction::UnnamedFields
    );

    let mut manager = DIManager::default();
    manager.build::<Bar>();
    manager.build::<Baz>();
    let foo = manager.build::<UnnamedDirect>();

    assert!(foo.is_some());
    assert_eq!(foo.unwrap().extract(), Part::Unnamed(Unnamed(Bar, Baz)));
}

#[test]
fn test_di_builder_proc_macro_for_all_named_fields_as_deps_with_new_build_method() {
    assert_eq!(BuildMethod::try_from(String::from("new")), Ok(BuildMethod::New));
    assert_eq!(
        declared(Some("new"), FieldsKind::Named).construction,
        Construction::New
    );

    let mut manager = DIManager::default();
    manager.build::<Bar>();
    manager.build::<Baz>();
    let foo = manager.build::<NamedNew>();

    assert!(foo.is_some());
}

#[test]
fn test_di_builder_proc_macro_for_all_unnamed_fields_as_deps_with_new_build_method() {
    assert_eq!(
        declared(Some("new"), FieldsKind::Unnamed).construction,
        Construction::New
    );

    let mut manager = DIManager::default();
    manager.build::<Bar>();
    manager.build::<Baz>();
    let foo = manager.build::<UnnamedNew>();

    assert!(foo.is_some());
}

#[test]
fn test_di_builder_proc_macro_for_all_named_fields_as_deps_with_default_build_method() {
    assert_eq!(
        BuildMethod::try_from(String::from("default")),
        Ok(BuildMethod::Defaulted)
    );
    assert_eq!(
        declared(Some("default"), FieldsKind::Named).construction,
        Construction::Defaulted
    );

    let mut manager = DIManager::default();
    manager.build::<Bar>();
    manager.build::<Baz>();
    let foo = manager.build::<NamedDefault>();

    assert!(foo.is_some());
}

#[test]
fn test_di_builder_proc_macro_for_all_unnamed_fields_as_deps_with_default_build_method() {
    assert_eq!(
        declared(Some("default"), FieldsKind::Unnamed).construction,
        Construction::Defaulted
    );

    let mut manager = DIManager::default();
    manager.build::<Bar>();
    manager.build::<Baz>();
    let foo = manager.build::<UnnamedDefault>();

    assert!(foo.is_some());
}

#[test]
fn a_declared_builder_needs_its_dependencies() {
    let mut manager = DIManager::default();
    manager.build::<Bar>();
    assert!(manager.build::<NamedDirect>().is_none());
    assert!(!manager.has(FOO));
}
