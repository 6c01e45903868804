//! The lint rule that asks for one style of object-literal properties: either
//! every property is written out (`{foo: foo}`), or the shorthand is used
//! wherever it can be (`{foo}`).
//!
//! The rule reads an [`ObjectMember`], which holds what it needs to know of a
//! member of an object literal.

use crate::file_source::str_equal;
use vstd::prelude::*;

verus! {

/// The style of object-literal properties to enforce.
#[derive(Clone, Copy, Debug, PartialEq, Eq, Structural)]
pub enum ObjectLiteralSyntax {
    /// Every property is written out.
    Explicit,
    /// The shorthand is used wherever it can be.
    Shorthand,
}

/// The options of the rule.
#[derive(Clone, Copy, Debug, PartialEq, Eq, Structural)]
pub struct UseConsistentObjectLiteralsOptions {
    syntax: ObjectLiteralSyntax,
}

/// The value of a written-out property, as far as the rule tells values
/// apart.
pub enum PropertyValue {
    /// A reference to a variable.
    Identifier { name: String },
    /// A call of a function that is named by an identifier.
    Call { callee: String },
    /// A function expression.
    Function,
    /// Anything else.
    Other,
}

/// A member of an object literal.
pub enum ObjectMember {
    /// `{foo}`
    Shorthand { name: String },
    /// `{foo: value}`
    Property { name: String, value: PropertyValue },
    /// `{foo() {}}`
    Method { name: String },
    /// A getter, a setter, a spread, or a member whose name is computed.
    Other,
}

/// The rule.
pub struct UseConsistentObjectLiterals {}

impl Default for ObjectLiteralSyntax {
    fn default() -> (r: ObjectLiteralSyntax)
        ensures
            r == ObjectLiteralSyntax::Explicit,
    {
        ObjectLiteralSyntax::Explicit
    }
}

impl Default for UseConsistentObjectLiteralsOptions {
    fn default() -> (r: UseConsistentObjectLiteralsOptions)
        ensures
            r.spec_syntax() == ObjectLiteralSyntax::Explicit,
    {
        UseConsistentObjectLiteralsOptions { syntax: ObjectLiteralSyntax::Explicit }
    }
}

impl UseConsistentObjectLiteralsOptions {
    /// The style to enforce.
    pub closed spec fn spec_syntax(self) -> ObjectLiteralSyntax {
        self.syntax
    }

    /// Options that enforce the given style.
    pub fn new(syntax: ObjectLiteralSyntax) -> (r: UseConsistentObjectLiteralsOptions)
        ensures
            r.spec_syntax() == syntax,
    {
        UseConsistentObjectLiteralsOptions { syntax }
    }

    /// The style to enforce.
    pub fn syntax(&self) -> (r: ObjectLiteralSyntax)
        ensures
            r == self.spec_syntax(),
    {
        self.syntax
    }
}

impl PropertyValue {
    /// The name that the value goes by: the variable's, the callee's, or the
    /// keyword `function`.
    pub open spec fn reference(self) -> Option<Seq<char>> {
        match self {
            PropertyValue::Identifier { name } => Some(name@),
            PropertyValue::Call { callee } => Some(callee@),
            PropertyValue::Function => Some("function"@),
            PropertyValue::Other => None,
        }
    }
}

/// Whether a written-out property could be written in shorthand: its value
/// goes by the property's own name, or is a function.
pub open spec fn could_be_shorthand(name: Seq<char>, value: PropertyValue) -> bool {
    value.reference() matches Some(reference) && (name == reference || reference == "function"@)
}

/// The name of the member if the member breaks the style, else `None`.
///
/// Under the explicit style a shorthand property and a method break it.
/// Under the shorthand style a written-out property breaks it if it could be
/// written in shorthand.
pub open spec fn offending_name(member: ObjectMember, syntax: ObjectLiteralSyntax) -> Option<
    Seq<char>,
> {
    match member {
        ObjectMember::Shorthand { name } => if syntax is Explicit {
            Some(name@)
        } else {
            None
        },
        ObjectMember::Property { name, value } => if syntax is Shorthand && could_be_shorthand(
            name@,
            value,
        ) {
            Some(name@)
        } else {
            None
        },
        ObjectMember::Method { name } => if syntax is Explicit {
            Some(name@)
        } else {
            None
        },
        ObjectMember::Other => None,
    }
}

/// What the rule says when the style is broken.
pub open spec fn title_of(syntax: ObjectLiteralSyntax) -> Seq<char> {
    match syntax {
        ObjectLiteralSyntax::Shorthand => "Use shorthand object property syntax whenever possible."@,
        ObjectLiteralSyntax::Explicit => "Always use explicit object property assignment syntax."@,
    }
}

impl UseConsistentObjectLiterals {
    /// Checks one member of an object literal against the style. Returns the
    /// member's name if the member breaks it.
    pub fn run(member: &ObjectMember, options: &UseConsistentObjectLiteralsOptions) -> (r: Option<
        String,
    >)
        ensures
            crate::paths::text_of(r) == offending_name(*member, options.spec_syntax()),
    {
        match member {
            ObjectMember::Shorthand { name } => match options.syntax {
                ObjectLiteralSyntax::Shorthand => None,
                ObjectLiteralSyntax::Explicit => Some(name.clone()),
            },
            ObjectMember::Property { name, value } => {
                let reference = match value {
                    PropertyValue::Identifier { name } => name.as_str(),
                    PropertyValue::Call { callee } => callee.as_str(),
                    PropertyValue::Function => "function",
                    PropertyValue::Other => {
                        return None;
                    },
                };
                match options.syntax {
                    ObjectLiteralSyntax::Shorthand => {
                        if str_equal(name.as_str(), reference) || str_equal("function", reference) {
                            Some(name.clone())
                        } else {
                            None
                        }
                    },
                    ObjectLiteralSyntax::Explicit => None,
                }
            },
            ObjectMember::Method { name } => match options.syntax {
                ObjectLiteralSyntax::Shorthand => None,
                ObjectLiteralSyntax::Explicit => Some(name.clone()),
            },
            ObjectMember::Other => None,
        }
    }

    /// The title of the diagnostic that reports a member which breaks the
    /// style.
    pub fn diagnostic(options: &UseConsistentObjectLiteralsOptions) -> (r: &'static str)
        ensures
            r@ == title_of(options.spec_syntax()),
    {
        match options.syntax {
            ObjectLiteralSyntax::Shorthand => "Use shorthand object property syntax whenever possible.",
            ObjectLiteralSyntax::Explicit => "Always use explicit object property assignment syntax.",
        }
    }
}

} // verus!
