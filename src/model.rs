use vstd::prelude::*;

verus! {

/// How generated code addresses a field's value.
#[derive(Clone, Copy, Debug, PartialEq, Eq, Structural)]
pub enum AccessorMode {
    /// A property of the object under construction: `this.<name>`.
    InstanceBound,
    /// A local binding of the same name: `<name>`.
    FreeStanding,
    /// A property of the decoded scratch value: `message.<name>`.
    IntermediateBound,
}

/// TypeScript keyword types that scalar fields map to.
#[derive(Clone, Copy, Debug, PartialEq, Eq, Structural)]
pub enum Primitive {
    Number,
    String,
    Boolean,
}

/// Static type of a generated property.
#[derive(Debug, PartialEq, Eq)]
pub enum TypeAnnotation {
    Primitive(Primitive),
    /// A reference to a generated message or enum type.
    NamedRef(String),
    ArrayOf(Box<TypeAnnotation>),
    MapOf(Box<TypeAnnotation>, Box<TypeAnnotation>),
}

/// Storage initializer of a generated property.
#[derive(Clone, Copy, Debug, PartialEq, Eq, Structural)]
pub enum DefaultExpr {
    /// `new Map()`
    EmptyMap,
    /// `[]`
    EmptyArray,
    /// `new Uint8Array()`
    EmptyBytes,
    /// `undefined`
    UndefinedSentinel,
}

/// The implicit zero value of a proto3 scalar.
#[derive(Clone, Copy, Debug, PartialEq, Eq, Structural)]
pub enum DefaultLiteral {
    /// `""`
    EmptyString,
    /// `0`
    Zero,
    /// `false`
    False,
}

/// One clause of a presence test, applied to the tested field.
#[derive(Clone, Copy, Debug, PartialEq, Eq, Structural)]
pub enum PresenceCheck {
    /// `<field> !== undefined`
    NotUndefined,
    /// `<field>.size !== 0`
    SizeNotZero,
    /// `<field>.length !== 0`
    LengthNotZero,
    /// `<field> !== <literal>`
    NotEqualDefault(DefaultLiteral),
}

/// A field as addressed in generated code.
#[derive(Clone, Debug, PartialEq, Eq)]
pub struct FieldRef {
    pub mode: AccessorMode,
    pub name: String,
}

/// The conjunction, in order, of `checks` applied to `target`.
#[derive(Clone, Debug, PartialEq, Eq)]
pub struct PresenceExpr {
    pub target: FieldRef,
    pub checks: Vec<PresenceCheck>,
}

/// One declared property of a generated class.
#[derive(Debug, PartialEq, Eq)]
pub struct FieldNode {
    pub name: String,
    /// Whether the property carries the `?` marker.
    pub optional: bool,
    pub type_ann: Option<TypeAnnotation>,
    pub value: DefaultExpr,
}

/// A schema graph that no class can be generated from.
#[derive(Clone, Debug, PartialEq, Eq)]
pub enum TypeError {
    /// The named map-entry type has a key or value field without a type.
    UntypedMapEntry(String),
    /// The named map-entry type contains itself through its key or value.
    CyclicMapEntry(String),
}

impl AccessorMode {
    /// What precedes the field name when the field is addressed this way.
    pub open spec fn spec_prefix(self) -> Seq<char> {
        match self {
            AccessorMode::InstanceBound => "this."@,
            AccessorMode::FreeStanding => ""@,
            AccessorMode::IntermediateBound => "message."@,
        }
    }
}

impl FieldRef {
    pub open spec fn spec_source(&self) -> Seq<char> {
        self.mode.spec_prefix() + self.name@
    }

    pub fn to_source(&self) -> (r: String)
        ensures
            r@ == self.spec_source(),
    {
        let mut r = match self.mode {
            AccessorMode::InstanceBound => String::from_str("this."),
            AccessorMode::FreeStanding => String::from_str(""),
            AccessorMode::IntermediateBound => String::from_str("message."),
        };
        r.append(self.name.as_str());
        r
    }
}

impl DefaultLiteral {
    pub open spec fn spec_source(self) -> Seq<char> {
        match self {
            DefaultLiteral::EmptyString => "\"\""@,
            DefaultLiteral::Zero => "0"@,
            DefaultLiteral::False => "false"@,
        }
    }
}

impl PresenceCheck {
    /// The clause applied to a field written `field`.
    pub open spec fn spec_source(self, field: Seq<char>) -> Seq<char> {
        match self {
            PresenceCheck::NotUndefined => field + " !== undefined"@,
            PresenceCheck::SizeNotZero => field + ".size !== 0"@,
            PresenceCheck::LengthNotZero => field + ".length !== 0"@,
            PresenceCheck::NotEqualDefault(l) => field + " !== "@ + l.spec_source(),
        }
    }
}

/// The clauses `checks[..n]` applied to `field`, joined by `&&`.
pub open spec fn conjunction_source(checks: Seq<PresenceCheck>, field: Seq<char>, n: nat) -> Seq<char>
    decreases n,
{
    if n == 0 {
        Seq::empty()
    } else if n == 1 {
        checks[0].spec_source(field)
    } else {
        conjunction_source(checks, field, (n - 1) as nat) + " && "@ + checks[n - 1].spec_source(field)
    }
}

impl PresenceExpr {
    pub open spec fn spec_source(&self) -> Seq<char> {
        conjunction_source(self.checks@, self.target.spec_source(), self.checks@.len())
    }

    /// The test as TypeScript source, e.g. `this.count !== undefined && this.count !== 0`.
    pub fn to_source(&self) -> (r: String)
        ensures
            r@ == self.spec_source(),
    {
        let field = self.target.to_source();
        let mut r = String::new();
        let mut i: usize = 0;
        while i < self.checks.len()
            invariant
                i <= self.checks@.len(),
                field@ == self.target.spec_source(),
                r@ == conjunction_source(self.checks@, field@, i as nat),
            decreases self.checks@.len() - i,
        {
            if i > 0 {
                r.append(" && ");
            }
            r.append(field.as_str());
            match self.checks[i] {
                PresenceCheck::NotUndefined => r.append(" !== undefined"),
                PresenceCheck::SizeNotZero => r.append(".size !== 0"),
                PresenceCheck::LengthNotZero => r.append(".length !== 0"),
                PresenceCheck::NotEqualDefault(l) => {
                    r.append(" !== ");
                    match l {
                        DefaultLiteral::EmptyString => r.append("\"\""),
                        DefaultLiteral::Zero => r.append("0"),
                        DefaultLiteral::False => r.append("false"),
                    }
                },
            }
            i = i + 1;
        }
        r
    }
}

impl TypeAnnotation {
    pub open spec fn spec_source(&self) -> Seq<char>
        decreases self,
    {
        match self {
            TypeAnnotation::Primitive(Primitive::Number) => "number"@,
            TypeAnnotation::Primitive(Primitive::String) => "string"@,
            TypeAnnotation::Primitive(Primitive::Boolean) => "boolean"@,
            TypeAnnotation::NamedRef(n) => n@,
            TypeAnnotation::ArrayOf(t) => t.spec_source() + "[]"@,
            TypeAnnotation::MapOf(k, v) => "Map<"@ + k.spec_source() + ", "@ + v.spec_source()
                + ">"@,
        }
    }

    /// The type as TypeScript source, e.g. `Map<string, number[]>`.
    pub fn to_source(&self) -> (r: String)
        ensures
            r@ == self.spec_source(),
        decreases self,
    {
        match self {
            TypeAnnotation::Primitive(Primitive::Number) => String::from_str("number"),
            TypeAnnotation::Primitive(Primitive::String) => String::from_str("string"),
            TypeAnnotation::Primitive(Primitive::Boolean) => String::from_str("boolean"),
            TypeAnnotation::NamedRef(n) => n.clone(),
            TypeAnnotation::ArrayOf(t) => {
                let mut r = t.to_source();
                r.append("[]");
                r
            },
            TypeAnnotation::MapOf(k, v) => {
                let mut r = String::from_str("Map<");
                let ks = k.to_source();
                let vs = v.to_source();
                r.append(ks.as_str());
                r.append(", ");
                r.append(vs.as_str());
                r.append(">");
                r
            },
        }
    }
}

impl DefaultExpr {
    pub open spec fn spec_source(self) -> Seq<char> {
        match self {
            DefaultExpr::EmptyMap => "new Map()"@,
            DefaultExpr::EmptyArray => "[]"@,
            DefaultExpr::EmptyBytes => "new Uint8Array()"@,
            DefaultExpr::UndefinedSentinel => "undefined"@,
        }
    }

    /// The initializer as TypeScript source.
    pub fn to_source(&self) -> (r: String)
        ensures
            r@ == self.spec_source(),
    {
        match self {
            DefaultExpr::EmptyMap => String::from_str("new Map()"),
            DefaultExpr::EmptyArray => String::from_str("[]"),
            DefaultExpr::EmptyBytes => String::from_str("new Uint8Array()"),
            DefaultExpr::UndefinedSentinel => String::from_str("undefined"),
        }
    }
}

impl TypeError {
    /// The name of the type that the schema graph got wrong.
    pub open spec fn spec_offending_type(&self) -> Seq<char> {
        match self {
            TypeError::UntypedMapEntry(n) => n@,
            TypeError::CyclicMapEntry(n) => n@,
        }
    }

    pub open spec fn spec_message(&self) -> Seq<char> {
        match self {
            TypeError::UntypedMapEntry(n) => "map entry type "@ + n@
                + " has a key or value without a type"@,
            TypeError::CyclicMapEntry(n) => "map entry type "@ + n@ + " contains itself"@,
        }
    }

    /// A description that names the offending type.
    pub fn message(&self) -> (r: String)
        ensures
            r@ == self.spec_message(),
    {
        let mut r = String::from_str("map entry type ");
        match self {
            TypeError::UntypedMapEntry(n) => {
                r.append(n.as_str());
                r.append(" has a key or value without a type");
            },
            TypeError::CyclicMapEntry(n) => {
                r.append(n.as_str());
                r.append(" contains itself");
            },
        }
        r
    }
}

} // verus!
