use yadir::declaration::{
    construction, dependencies, is_deps, plan, read_header, BuildMethod, Construction,
    DeclarationError, DepsAttr, FieldsKind, Header, StructAttr,
};

fn build_as(typed: bool) -> StructAttr {
    StructAttr::BuildAs { typed }
}

fn build_method(name: &str) -> StructAttr {
    StructAttr::BuildMethod {
        name: Some(String::from(name)),
    }
}

#[test]
fn build_method_is_new_or_default() {
    assert_eq!(BuildMethod::try_from(String::from("new")), Ok(BuildMethod::New));
    assert_eq!(
        BuildMethod::try_from(String::from("default")),
        Ok(BuildMethod::Defaulted)
    );
    assert_eq!(
        BuildMethod::try_from(String::from("create")),
        Err(DeclarationError::InvalidBuildMethod)
    );
    assert_eq!(
        BuildMethod::try_from(String::from("")),
        Err(DeclarationError::InvalidBuildMethod)
    );
    assert_eq!(
        BuildMethod::try_from(String::from("New")),
        Err(DeclarationError::InvalidBuildMethod)
    );
}

#[test]
fn each_error_has_its_message() {
    assert_eq!(
        DeclarationError::InvalidBuildMethod.message(),
        "Invalid build method"
    );
    assert_eq!(
        DeclarationError::MultipleBuildAs.message(),
        "Multiple #[build_as] attributes are not allowed"
    );
    assert_eq!(
        DeclarationError::BuildAsAfterBuildMethod.message(),
        "The #[build_as] attribute must come before the #[build_method] attribute"
    );
    assert_eq!(
        DeclarationError::MultipleBuildMethod.message(),
        "Multiple #[build_method] attributes are not allowed"
    );
    assert_eq!(
        DeclarationError::MultipleDeps.message(),
        "Multiple #[deps] attributes are redundant"
    );
    assert_eq!(
        DeclarationError::MixedFields.message(),
        "Cannot mix named and unnamed fields with #[di_build]"
    );
    assert_ne!(
        DeclarationError::UnreadableBuildMethod.message(),
        DeclarationError::UnreadableDeps.message()
    );
}

#[test]
fn a_struct_without_attributes_is_built_directly_as_itself() {
    let direct = Header {
        boxed: false,
        method: BuildMethod::Direct,
    };
    assert_eq!(read_header(&vec![]), Ok(direct));
    assert_eq!(
        read_header(&vec![StructAttr::Other, StructAttr::Other]),
        Ok(direct)
    );
}

#[test]
fn the_attributes_give_output_and_method() {
    assert_eq!(
        read_header(&vec![build_as(true), StructAttr::Other, build_method("new")]),
        Ok(Header {
            boxed: true,
            method: BuildMethod::New
        })
    );
    assert_eq!(
        read_header(&vec![build_as(false), build_method("default")]),
        Ok(Header {
            boxed: false,
            method: BuildMethod::Defaulted
        })
    );
    assert_eq!(
        read_header(&vec![build_method("new")]),
        Ok(Header {
            boxed: false,
            method: BuildMethod::New
        })
    );
    assert_eq!(
        read_header(&vec![build_as(true)]),
        Ok(Header {
            boxed: true,
            method: BuildMethod::Direct
        })
    );
}

#[test]
fn the_first_faulty_attribute_gives_the_error() {
    assert_eq!(
        read_header(&vec![build_as(true), build_as(true)]),
        Err(DeclarationError::MultipleBuildAs)
    );
    assert_eq!(
        read_header(&vec![build_method("new"), build_as(true)]),
        Err(DeclarationError::BuildAsAfterBuildMethod)
    );
    assert_eq!(
        read_header(&vec![build_method("new"), build_method("default")]),
        Err(DeclarationError::MultipleBuildMethod)
    );
    assert_eq!(
        read_header(&vec![build_method("other")]),
        Err(DeclarationError::InvalidBuildMethod)
    );
    assert_eq!(
        read_header(&vec![StructAttr::BuildMethod { name: None }]),
        Err(DeclarationError::UnreadableBuildMethod)
    );
    assert_eq!(
        read_header(&vec![build_method("new"), build_method("other")]),
        Err(DeclarationError::InvalidBuildMethod)
    );
    assert_eq!(
        read_header(&vec![build_as(false), build_method("new"), build_as(true)]),
        Err(DeclarationError::MultipleBuildAs)
    );
    assert_eq!(
        read_header(&vec![
            build_method("new"),
            build_as(true),
            build_method("other")
        ]),
        Err(DeclarationError::BuildAsAfterBuildMethod)
    );
}

#[test]
fn a_field_is_a_dependency_by_one_deps_attribute() {
    assert_eq!(is_deps(&vec![]), Ok(None));
    assert_eq!(
        is_deps(&vec![DepsAttr::Plain]),
        Ok(Some(String::from("default")))
    );
    assert_eq!(
        is_deps(&vec![DepsAttr::Keyed(String::from("my_foo"))]),
        Ok(Some(String::from("my_foo")))
    );
    assert_eq!(
        is_deps(&vec![DepsAttr::Plain, DepsAttr::Plain]),
        Err(DeclarationError::MultipleDeps)
    );
    assert_eq!(
        is_deps(&vec![DepsAttr::Unreadable]),
        Err(DeclarationError::UnreadableDeps)
    );
    assert_eq!(
        is_deps(&vec![DepsAttr::Plain, DepsAttr::Unreadable]),
        Err(DeclarationError::UnreadableDeps)
    );
}

#[test]
fn dependencies_keep_the_order_of_the_fields() {
    let fields = vec![
        vec![],
        vec![DepsAttr::Keyed(String::from("my_foo"))],
        vec![],
        vec![DepsAttr::Plain],
    ];
    let deps = dependencies(&fields).unwrap();
    assert_eq!(deps.len(), 2);
    assert_eq!(deps[0].field, 1);
    assert_eq!(deps[0].code, "my_foo");
    assert_eq!(deps[1].field, 3);
    assert_eq!(deps[1].code, "default");

    assert!(dependencies(&vec![]).unwrap().is_empty());
    assert!(dependencies(&vec![vec![], vec![]]).unwrap().is_empty());
}

#[test]
fn the_first_faulty_field_gives_the_error() {
    let fields = vec![
        vec![DepsAttr::Plain],
        vec![DepsAttr::Plain, DepsAttr::Plain],
        vec![DepsAttr::Unreadable],
    ];
    assert_eq!(
        dependencies(&fields).unwrap_err(),
        DeclarationError::MultipleDeps
    );
    let fields = vec![vec![DepsAttr::Unreadable], vec![DepsAttr::Plain, DepsAttr::Plain]];
    assert_eq!(
        dependencies(&fields).unwrap_err(),
        DeclarationError::UnreadableDeps
    );
}

#[test]
fn the_construction_follows_method_and_fields() {
    let direct = BuildMethod::Direct;
    assert_eq!(construction(direct, FieldsKind::Unit, 0), Ok(Construction::Bare));
    assert_eq!(construction(direct, FieldsKind::Named, 0), Ok(Construction::Bare));
    assert_eq!(construction(direct, FieldsKind::Unnamed, 0), Ok(Construction::Bare));
    assert_eq!(
        construction(direct, FieldsKind::Named, 2),
        Ok(Construction::NamedFields)
    );
    assert_eq!(
        construction(direct, FieldsKind::Unnamed, 1),
        Ok(Construction::UnnamedFields)
    );
    assert_eq!(
        construction(BuildMethod::New, FieldsKind::Unit, 0),
        Ok(Construction::New)
    );
    assert_eq!(
        construction(BuildMethod::New, FieldsKind::Named, 3),
        Ok(Construction::New)
    );
    assert_eq!(
        construction(BuildMethod::New, FieldsKind::Unnamed, 3),
        Ok(Construction::New)
    );
    assert_eq!(
        construction(BuildMethod::Defaulted, FieldsKind::Named, 1),
        Ok(Construction::Defaulted)
    );
    assert_eq!(
        construction(BuildMethod::Defaulted, FieldsKind::Unnamed, 1),
        Ok(Construction::Defaulted)
    );
    assert_eq!(
        construction(BuildMethod::Defaulted, FieldsKind::Unit, 0),
        Err(DeclarationError::MixedFields)
    );
    assert_eq!(
        construction(BuildMethod::Defaulted, FieldsKind::Named, 0),
        Err(DeclarationError::MixedFields)
    );
}

#[test]
fn a_declaration_is_read_as_a_whole() {
    let made = plan(
        &vec![build_as(true), build_method("new")],
        FieldsKind::Named,
        &vec![vec![], vec![DepsAttr::Plain], vec![DepsAttr::Keyed(String::from("k"))]],
    )
    .unwrap();
    assert!(made.boxed);
    assert_eq!(made.construction, Construction::New);
    assert_eq!(made.deps.len(), 2);
    assert_eq!(made.deps[0].field, 1);
    assert_eq!(made.deps[0].code, "default");
    assert_eq!(made.deps[1].field, 2);
    assert_eq!(made.deps[1].code, "k");

    let unit = plan(&vec![], FieldsKind::Unit, &vec![]).unwrap();
    assert!(!unit.boxed);
    assert_eq!(unit.construction, Construction::Bare);
    assert!(unit.deps.is_empty());
}

#[test]
fn a_declaration_fails_at_its_first_fault() {
    let two_deps = vec![vec![DepsAttr::Plain, DepsAttr::Plain]];
    assert_eq!(
        plan(&vec![build_method("other")], FieldsKind::Named, &two_deps).unwrap_err(),
        DeclarationError::InvalidBuildMethod
    );
    assert_eq!(
        plan(&vec![build_method("default")], FieldsKind::Named, &two_deps).unwrap_err(),
        DeclarationError::MultipleDeps
    );
    assert_eq!(
        plan(&vec![build_method("default")], FieldsKind::Unit, &vec![]).unwrap_err(),
        DeclarationError::MixedFields
    );
}
