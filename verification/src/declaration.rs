//! The rules of a declaration: how the attributes of a struct and of its
//! fields say what the struct is built from, and in which way.
//!
//! A struct may carry one `build_as` attribute, which may name the type that
//! the struct is built as, and after it one `build_method` attribute, which
//! names the way of construction. A field carries at most one `deps`
//! attribute, which makes it a dependency, under the instance code that the
//! attribute gives or under the default code.

use crate::key::default_code;
use vstd::prelude::*;

verus! {

/// The way in which a struct is constructed from its dependencies.
#[derive(Debug, Clone, Copy, PartialEq, Eq, Structural)]
pub enum BuildMethod {
    /// The struct is written out, field by field.
    Direct,
    /// By the struct's `new`.
    New,
    /// By the struct's `default`.
    Defaulted,
}

/// What is wrong with a declaration.
#[derive(Debug, Clone, Copy, PartialEq, Eq, Structural)]
pub enum DeclarationError {
    UnreadableBuildMethod,
    InvalidBuildMethod,
    MultipleBuildAs,
    BuildAsAfterBuildMethod,
    MultipleBuildMethod,
    UnreadableDeps,
    MultipleDeps,
    MixedFields,
}

impl DeclarationError {
    pub open spec fn message_spec(self) -> Seq<char> {
        match self {
            DeclarationError::UnreadableBuildMethod => "The argument of #[build_method] cannot be read"@,
            DeclarationError::InvalidBuildMethod => "Invalid build method"@,
            DeclarationError::MultipleBuildAs => "Multiple #[build_as] attributes are not allowed"@,
            DeclarationError::BuildAsAfterBuildMethod => "The #[build_as] attribute must come before the #[build_method] attribute"@,
            DeclarationError::MultipleBuildMethod => "Multiple #[build_method] attributes are not allowed"@,
            DeclarationError::UnreadableDeps => "The arguments of #[deps] cannot be read"@,
            DeclarationError::MultipleDeps => "Multiple #[deps] attributes are redundant"@,
            DeclarationError::MixedFields => "Cannot mix named and unnamed fields with #[di_build]"@,
        }
    }

    /// The words in which the error is reported.
    pub fn message(&self) -> (text: String)
        ensures
            text@ == self.message_spec(),
    {
        match self {
            DeclarationError::UnreadableBuildMethod => "The argument of #[build_method] cannot be read".to_owned(),
            DeclarationError::InvalidBuildMethod => "Invalid build method".to_owned(),
            DeclarationError::MultipleBuildAs => "Multiple #[build_as] attributes are not allowed".to_owned(),
            DeclarationError::BuildAsAfterBuildMethod => "The #[build_as] attribute must come before the #[build_method] attribute".to_owned(),
            DeclarationError::MultipleBuildMethod => "Multiple #[build_method] attributes are not allowed".to_owned(),
            DeclarationError::UnreadableDeps => "The arguments of #[deps] cannot be read".to_owned(),
            DeclarationError::MultipleDeps => "Multiple #[deps] attributes are redundant".to_owned(),
            DeclarationError::MixedFields => "Cannot mix named and unnamed fields with #[di_build]".to_owned(),
        }
    }
}

/// The way of construction that a name stands for.
pub open spec fn method_named(name: Seq<char>) -> Option<BuildMethod> {
    if name == "new"@ {
        Some(BuildMethod::New)
    } else if name == "default"@ {
        Some(BuildMethod::Defaulted)
    } else {
        None
    }
}

impl BuildMethod {
    /// Reads the name of a way of construction: `new` or `default`.
    pub fn try_from(value: String) -> (method: Result<BuildMethod, DeclarationError>)
        ensures
            method == match method_named(value@) {
                Some(method) => Ok::<BuildMethod, DeclarationError>(method),
                None => Err(DeclarationError::InvalidBuildMethod),
            },
    {
        if value == "new".to_owned() {
            Ok(BuildMethod::New)
        } else if value == "default".to_owned() {
            Ok(BuildMethod::Defaulted)
        } else {
            Err(DeclarationError::InvalidBuildMethod)
        }
    }
}

/// One attribute of a struct, as far as the rules read it.
#[derive(Debug)]
pub enum StructAttr {
    /// `build_as`; `typed` says whether its argument reads as a type.
    BuildAs { typed: bool },
    /// `build_method`, with the text of its argument where that can be
    /// read.
    BuildMethod { name: Option<String> },
    /// Any other attribute.
    Other,
}

/// What the attributes of a struct say of its construction.
#[derive(Debug, Clone, Copy, PartialEq, Eq, Structural)]
pub struct Header {
    /// Whether the struct is built as another type, and so boxed.
    pub boxed: bool,
    pub method: BuildMethod,
}

/// Whether a `build_as` attribute stands before position `i`.
pub open spec fn seen_build_as(attrs: Seq<StructAttr>, i: int) -> bool {
    exists|j: int| 0 <= j < i && j < attrs.len() && #[trigger] attrs[j] is BuildAs
}

/// Whether a `build_method` attribute stands before position `i`.
pub open spec fn seen_build_method(attrs: Seq<StructAttr>, i: int) -> bool {
    exists|j: int| 0 <= j < i && j < attrs.len() && #[trigger] attrs[j] is BuildMethod
}

/// What is wrong with the attribute at position `i`, given those before it.
pub open spec fn header_fault(attrs: Seq<StructAttr>, i: int) -> Option<DeclarationError> {
    match attrs[i] {
        StructAttr::BuildAs { typed } => if seen_build_as(attrs, i) {
            Some(DeclarationError::MultipleBuildAs)
        } else if seen_build_method(attrs, i) {
            Some(DeclarationError::BuildAsAfterBuildMethod)
        } else {
            None
        },
        StructAttr::BuildMethod { name } => match name {
            None => Some(DeclarationError::UnreadableBuildMethod),
            Some(name) => if method_named(name@).is_none() {
                Some(DeclarationError::InvalidBuildMethod)
            } else if seen_build_method(attrs, i) {
                Some(DeclarationError::MultipleBuildMethod)
            } else {
                None
            },
        },
        StructAttr::Other => None,
    }
}

/// Whether a `build_as` attribute before position `i` names a type.
pub open spec fn boxed_within(attrs: Seq<StructAttr>, i: int) -> bool {
    exists|j: int|
        0 <= j < i && j < attrs.len() && #[trigger] attrs[j] == (StructAttr::BuildAs {
            typed: true,
        })
}

/// Whether a `build_method` attribute before position `i` names this way of
/// construction, or none stands there and the way is the direct one.
pub open spec fn method_within(attrs: Seq<StructAttr>, i: int, method: BuildMethod) -> bool {
    if seen_build_method(attrs, i) {
        exists|j: int|
            0 <= j < i && j < attrs.len() && (#[trigger] attrs[j] matches StructAttr::BuildMethod {
                name: Some(name),
            } && method_named(name@) == Some(method))
    } else {
        method == BuildMethod::Direct
    }
}

/// What reading the attributes of a struct comes to: the first fault in
/// their order, or, where there is none, what they declare.
pub open spec fn header_read(
    attrs: Seq<StructAttr>,
    header: Result<Header, DeclarationError>,
) -> bool {
    match header {
        Ok(header) => {
            &&& forall|i: int| 0 <= i < attrs.len() ==> header_fault(attrs, i).is_none()
            &&& header.boxed == boxed_within(attrs, attrs.len() as int)
            &&& method_within(attrs, attrs.len() as int, header.method)
        },
        Err(error) => exists|i: int|
            {
                &&& 0 <= i < attrs.len()
                &&& #[trigger] header_fault(attrs, i) == Some(error)
                &&& forall|j: int| 0 <= j < i ==> header_fault(attrs, j).is_none()
            },
    }
}

/// Reads the attributes of a struct in their order.
pub fn read_header(attrs: &Vec<StructAttr>) -> (header: Result<Header, DeclarationError>)
    ensures
        header_read(attrs@, header),
{
    let mut boxed = false;
    let mut method = BuildMethod::Direct;
    let mut seen_as = false;
    let mut seen_method = false;
    let mut i: usize = 0;
    while i < attrs.len()
        invariant
            i <= attrs@.len(),
            forall|j: int| 0 <= j < i ==> header_fault(attrs@, j).is_none(),
            seen_as == seen_build_as(attrs@, i as int),
            seen_method == seen_build_method(attrs@, i as int),
            boxed == boxed_within(attrs@, i as int),
            method_within(attrs@, i as int, method),
        decreases attrs@.len() - i,
    {
        let ghost at = i as int;
        match &attrs[i] {
            StructAttr::BuildAs { typed } => {
                if seen_as {
                    assert(header_fault(attrs@, at) == Some(DeclarationError::MultipleBuildAs));
                    return Err(DeclarationError::MultipleBuildAs);
                }
                if seen_method {
                    assert(header_fault(attrs@, at) == Some(
                        DeclarationError::BuildAsAfterBuildMethod,
                    ));
                    return Err(DeclarationError::BuildAsAfterBuildMethod);
                }
                boxed = *typed;
                seen_as = true;
            },
            StructAttr::BuildMethod { name } => {
                let parsed = match name {
                    Some(name) => BuildMethod::try_from(name.clone()),
                    None => Err(DeclarationError::UnreadableBuildMethod),
                };
                match parsed {
                    Err(error) => {
                        assert(header_fault(attrs@, at) == Some(error));
                        return Err(error);
                    },
                    Ok(named) => {
                        if seen_method {
                            assert(header_fault(attrs@, at) == Some(
                                DeclarationError::MultipleBuildMethod,
                            ));
                            return Err(DeclarationError::MultipleBuildMethod);
                        }
                        method = named;
                        seen_method = true;
                    },
                }
            },
            StructAttr::Other => {},
        }
        i += 1;
    }
    Ok(Header { boxed, method })
}

/// One `deps` attribute of a field, as far as the rules read it.
#[derive(Debug)]
pub enum DepsAttr {
    /// Without a key.
    Plain,
    /// With a key: the instance code to take the dependency from.
    Keyed(String),
    /// With arguments that cannot be read.
    Unreadable,
}

/// Whether a field is a dependency, and under which instance code: not
/// without a `deps` attribute, under the attribute's key or the default
/// code with one, and with more than one the declaration is wrong. An
/// attribute that cannot be read is reported before their number.
pub open spec fn field_key(attrs: Seq<DepsAttr>) -> Result<Option<Seq<char>>, DeclarationError> {
    if exists|i: int| 0 <= i < attrs.len() && #[trigger] attrs[i] is Unreadable {
        Err(DeclarationError::UnreadableDeps)
    } else if attrs.len() == 0 {
        Ok(None)
    } else if attrs.len() == 1 {
        Ok(
            Some(
                match attrs[0] {
                    DepsAttr::Keyed(key) => key@,
                    _ => default_code(),
                },
            ),
        )
    } else {
        Err(DeclarationError::MultipleDeps)
    }
}

/// The result of `field_key` as the executable functions hold it, with the
/// code as a string.
pub open spec fn key_view(key: Result<Option<String>, DeclarationError>) -> Result<
    Option<Seq<char>>,
    DeclarationError,
> {
    match key {
        Ok(Some(code)) => Ok(Some(code@)),
        Ok(None) => Ok(None),
        Err(error) => Err(error),
    }
}

/// Reads the `deps` attributes of one field.
pub fn is_deps(attrs: &Vec<DepsAttr>) -> (key: Result<Option<String>, DeclarationError>)
    ensures
        key_view(key) == field_key(attrs@),
{
    let mut i: usize = 0;
    while i < attrs.len()
        invariant
            i <= attrs@.len(),
            forall|j: int| 0 <= j < i ==> !(attrs@[j] is Unreadable),
        decreases attrs@.len() - i,
    {
        match &attrs[i] {
            DepsAttr::Unreadable => {
                assert(attrs@[i as int] is Unreadable);
                return Err(DeclarationError::UnreadableDeps);
            },
            _ => {},
        }
        i += 1;
    }
    if attrs.len() == 0 {
        Ok(None)
    } else if attrs.len() == 1 {
        match &attrs[0] {
            DepsAttr::Keyed(key) => Ok(Some(key.clone())),
            _ => Ok(Some("default".to_owned())),
        }
    } else {
        Err(DeclarationError::MultipleDeps)
    }
}

/// A field that is a dependency: its position among the fields, and the
/// instance code to take it from.
#[derive(Debug)]
pub struct Dependency {
    pub field: usize,
    pub code: String,
}

impl Dependency {
    pub open spec fn view(&self) -> (int, Seq<char>) {
        (self.field as int, self.code@)
    }
}

/// The dependencies among the first `n` fields, in the fields' order.
pub open spec fn dependencies_within(fields: Seq<Vec<DepsAttr>>, n: nat) -> Seq<(int, Seq<char>)>
    decreases n,
{
    if n == 0 {
        Seq::empty()
    } else {
        let before = dependencies_within(fields, (n - 1) as nat);
        match field_key(fields[n - 1]@) {
            Ok(Some(code)) => before.push((n - 1, code)),
            _ => before,
        }
    }
}

/// The dependencies that a list holds, as contracts see them.
pub open spec fn dependency_views(deps: Seq<Dependency>) -> Seq<(int, Seq<char>)> {
    Seq::new(deps.len(), |i: int| deps[i]@)
}

/// What reading the fields of a struct comes to: the fault of the first
/// field that has one, or the dependencies among the fields, in order.
pub open spec fn dependencies_read(
    fields: Seq<Vec<DepsAttr>>,
    deps: Result<Vec<Dependency>, DeclarationError>,
) -> bool {
    match deps {
        Ok(deps) => {
            &&& forall|i: int| 0 <= i < fields.len() ==> field_key(fields[i]@).is_ok()
            &&& dependency_views(deps@) == dependencies_within(fields, fields.len())
        },
        Err(error) => exists|i: int|
            {
                &&& 0 <= i < fields.len()
                &&& #[trigger] field_key(fields[i]@) == Err::<Option<Seq<char>>, DeclarationError>(
                    error,
                )
                &&& forall|j: int| 0 <= j < i ==> field_key(fields[j]@).is_ok()
            },
    }
}

/// Reads the fields of a struct in their order, each by its `deps`
/// attributes.
pub fn dependencies(fields: &Vec<Vec<DepsAttr>>) -> (deps: Result<
    Vec<Dependency>,
    DeclarationError,
>)
    ensures
        dependencies_read(fields@, deps),
{
    let mut deps: Vec<Dependency> = Vec::new();
    let mut i: usize = 0;
    assert(dependency_views(deps@) =~= dependencies_within(fields@, 0));
    while i < fields.len()
        invariant
            i <= fields@.len(),
            forall|j: int| 0 <= j < i ==> field_key(fields@[j]@).is_ok(),
            dependency_views(deps@) == dependencies_within(fields@, i as nat),
        decreases fields@.len() - i,
    {
        let ghost before = deps@;
        match is_deps(&fields[i]) {
            Ok(Some(code)) => {
                deps.push(Dependency { field: i, code });
                assert(dependency_views(deps@) =~= dependency_views(before).push(
                    (i as int, code@),
                ));
            },
            Ok(None) => {},
            Err(error) => {
                assert(field_key(fields@[i as int]@) == Err::<Option<Seq<char>>, DeclarationError>(
                    error,
                ));
                return Err(error);
            },
        }
        i += 1;
    }
    Ok(deps)
}

/// How the fields of a struct are written.
#[derive(Debug, Clone, Copy, PartialEq, Eq, Structural)]
pub enum FieldsKind {
    Named,
    Unnamed,
    Unit,
}

/// The expression that constructs the struct.
#[derive(Debug, Clone, Copy, PartialEq, Eq, Structural)]
pub enum Construction {
    /// The struct's name alone.
    Bare,
    /// The struct written out with its named dependencies.
    NamedFields,
    /// The struct written out with its unnamed dependencies.
    UnnamedFields,
    /// A call of `new` with the dependencies, in order.
    New,
    /// A call of `default`.
    Defaulted,
}

/// The expression that constructs a struct, by its way of construction, the
/// kind of its fields and whether any field is a dependency. `default` is
/// for a struct with dependencies only; a struct whose fields are neither
/// named nor unnamed has none.
pub open spec fn construction_for(method: BuildMethod, kind: FieldsKind, deps: nat) -> Result<
    Construction,
    DeclarationError,
> {
    let named = kind == FieldsKind::Named && deps > 0;
    let unnamed = kind == FieldsKind::Unnamed && deps > 0;
    match method {
        BuildMethod::Direct => if named {
            Ok(Construction::NamedFields)
        } else if unnamed {
            Ok(Construction::UnnamedFields)
        } else {
            Ok(Construction::Bare)
        },
        BuildMethod::New => Ok(Construction::New),
        BuildMethod::Defaulted => if named || unnamed {
            Ok(Construction::Defaulted)
        } else {
            Err(DeclarationError::MixedFields)
        },
    }
}

/// Picks the expression that constructs a struct.
pub fn construction(method: BuildMethod, kind: FieldsKind, deps: usize) -> (made: Result<
    Construction,
    DeclarationError,
>)
    ensures
        made == construction_for(method, kind, deps as nat),
{
    let named = kind == FieldsKind::Named && deps > 0;
    let unnamed = kind == FieldsKind::Unnamed && deps > 0;
    match method {
        BuildMethod::Direct => if named {
            Ok(Construction::NamedFields)
        } else if unnamed {
            Ok(Construction::UnnamedFields)
        } else {
            Ok(Construction::Bare)
        },
        BuildMethod::New => Ok(Construction::New),
        BuildMethod::Defaulted => if named || unnamed {
            Ok(Construction::Defaulted)
        } else {
            Err(DeclarationError::MixedFields)
        },
    }
}

/// All that a declaration says: whether the output is boxed as another
/// type, the expression that constructs it, and the dependencies in order.
#[derive(Debug)]
pub struct Plan {
    pub boxed: bool,
    pub construction: Construction,
    pub deps: Vec<Dependency>,
}

/// What reading a whole declaration comes to: the struct's attributes are
/// read first, then its fields, then the construction is picked; the first
/// of these to fail gives the error.
pub open spec fn declaration_read(
    attrs: Seq<StructAttr>,
    kind: FieldsKind,
    fields: Seq<Vec<DepsAttr>>,
    plan: Result<Plan, DeclarationError>,
) -> bool {
    match plan {
        Ok(plan) => exists|header: Header|
            {
                &&& #[trigger] header_read(attrs, Ok(header))
                &&& plan.boxed == header.boxed
                &&& dependencies_read(fields, Ok(plan.deps))
                &&& construction_for(header.method, kind, plan.deps@.len()) == Ok::<
                    Construction,
                    DeclarationError,
                >(plan.construction)
            },
        Err(error) => {
            ||| header_read(attrs, Err(error))
            ||| exists|header: Header| #[trigger]
                header_read(attrs, Ok(header)) && dependencies_read(fields, Err(error))
            ||| exists|header: Header, deps: Vec<Dependency>|
                {
                    &&& #[trigger] header_read(attrs, Ok(header))
                    &&& #[trigger] dependencies_read(fields, Ok(deps))
                    &&& construction_for(header.method, kind, deps@.len()) == Err::<
                        Construction,
                        DeclarationError,
                    >(error)
                }
        },
    }
}

/// Reads a whole declaration.
pub fn plan(attrs: &Vec<StructAttr>, kind: FieldsKind, fields: &Vec<Vec<DepsAttr>>) -> (plan:
    Result<Plan, DeclarationError>)
    ensures
        declaration_read(attrs@, kind, fields@, plan),
{
    let header = match read_header(attrs) {
        Ok(header) => header,
        Err(error) => {
            return Err(error);
        },
    };
    let deps = match dependencies(fields) {
        Ok(deps) => deps,
        Err(error) => {
            assert(header_read(attrs@, Ok(header)));
            return Err(error);
        },
    };
    match construction(header.method, kind, deps.len()) {
        Ok(construction) => {
            assert(header_read(attrs@, Ok(header)));
            Ok(Plan { boxed: header.boxed, construction, deps })
        },
        Err(error) => {
            assert(header_read(attrs@, Ok(header)) && dependencies_read(fields@, Ok(deps)));
            Err(error)
        },
    }
}

} // verus!
