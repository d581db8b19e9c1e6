//! The attributes that a hint string can name, grouped by what they do.

pub mod decorator;
pub mod drawer;
pub mod meta;
pub mod validator;

use vstd::prelude::*;

use vstd::string::*;

use crate::constants::{Constant, Constants};
use crate::expression::{answers_compile, compiler_ready};
use crate::text::string_of;
use crate::variant_type::VariantType;
use decorator::{decorator_key, decorator_of, is_decorator_key, DecoratorAttribute, DecoratorView};
use drawer::{drawer_key, drawer_of, is_drawer_key, DrawerAttribute, DrawerView};
use meta::{is_meta_key, meta_key, meta_of, MetaAttribute, MetaView};
use validator::{is_validator_key, validator_key, validator_of, ValidatorAttribute, ValidatorView};

verus! {

/// What an attribute needs while parsing: the type of the property and the
/// constants of its script.
pub struct ParseContext<'a> {
    pub variant_type: VariantType,
    pub constants: &'a Constants,
}

/// An attribute of any group.
pub enum NaughtyAttribute {
    Decorator(DecoratorAttribute),
    Drawer(DrawerAttribute),
    Meta(MetaAttribute),
    Validator(ValidatorAttribute),
}

/// What an attribute holds, by its group.
pub enum AttributeView {
    Decorator(DecoratorView),
    Drawer(DrawerView),
    Meta(MetaView),
    Validator(ValidatorView),
}

impl View for NaughtyAttribute {
    type V = AttributeView;

    open spec fn view(&self) -> AttributeView {
        match self {
            NaughtyAttribute::Decorator(a) => AttributeView::Decorator(a@),
            NaughtyAttribute::Drawer(a) => AttributeView::Drawer(a@),
            NaughtyAttribute::Meta(a) => AttributeView::Meta(a@),
            NaughtyAttribute::Validator(a) => AttributeView::Validator(a@),
        }
    }
}

/// The keys of all attributes.
pub open spec fn is_attribute_key(key: Seq<char>) -> bool {
    is_decorator_key(key) || is_drawer_key(key) || is_meta_key(key) || is_validator_key(key)
}

/// The message of a key that names no attribute.
pub open spec fn unknown_attribute() -> Seq<char> {
    "unknown attribute"@
}

/// What the attribute that `key` names reads from `raw_args` on a property of
/// type `t` with the script's `constants`: the groups are asked in the order
/// decorator, drawer, meta, validator. `errors` tells what the engine's
/// compiler reports for an expression's source.
pub open spec fn attribute_of(
    key: Seq<char>,
    raw_args: Seq<char>,
    t: VariantType,
    constants: Seq<Constant>,
    errors: spec_fn(Seq<char>) -> Option<Seq<char>>,
) -> Result<AttributeView, Seq<char>> {
    if is_decorator_key(key) {
        match decorator_of(key, raw_args) {
            Ok(a) => Ok(AttributeView::Decorator(a)),
            Err(m) => Err(m),
        }
    } else if is_drawer_key(key) {
        match drawer_of(key, raw_args, t, constants, errors) {
            Ok(a) => Ok(AttributeView::Drawer(a)),
            Err(m) => Err(m),
        }
    } else if is_meta_key(key) {
        match meta_of(key, raw_args, errors) {
            Ok(a) => Ok(AttributeView::Meta(a)),
            Err(m) => Err(m),
        }
    } else if is_validator_key(key) {
        match validator_of(key, raw_args, t, errors) {
            Ok(a) => Ok(AttributeView::Validator(a)),
            Err(m) => Err(m),
        }
    } else {
        Err(unknown_attribute())
    }
}

/// The key that names an attribute.
pub open spec fn attribute_key(a: AttributeView) -> Seq<char> {
    match a {
        AttributeView::Decorator(d) => decorator_key(d),
        AttributeView::Drawer(d) => drawer_key(d),
        AttributeView::Meta(m) => meta_key(m),
        AttributeView::Validator(v) => validator_key(v),
    }
}

impl NaughtyAttribute {
    /// Reads the attribute that `key` names; `compile` answers for a source
    /// the error the engine's compiler reports, or none.
    pub fn parse<F: Fn(&str) -> Option<String>>(key: &str, raw_args: &str, context: &ParseContext, compile: &F) -> (r:
        Result<Self, String>)
        requires
            compiler_ready(*compile),
        ensures
            forall|errors: spec_fn(Seq<char>) -> Option<Seq<char>>|
                #[trigger] answers_compile(*compile, errors) ==> crate::text::result_view(r)
                    == attribute_of(key@, raw_args@, context.variant_type, context.constants.entries@, errors),
    {
        if DecoratorAttribute::is_known_key(key) {
            match DecoratorAttribute::parse(key, raw_args, context) {
                Ok(a) => Ok(NaughtyAttribute::Decorator(a)),
                Err(m) => Err(m),
            }
        } else if DrawerAttribute::is_known_key(key) {
            match DrawerAttribute::parse(key, raw_args, context, compile) {
                Ok(a) => Ok(NaughtyAttribute::Drawer(a)),
                Err(m) => Err(m),
            }
        } else if MetaAttribute::is_known_key(key) {
            match MetaAttribute::parse(key, raw_args, context, compile) {
                Ok(a) => Ok(NaughtyAttribute::Meta(a)),
                Err(m) => Err(m),
            }
        } else if ValidatorAttribute::is_known_key(key) {
            match ValidatorAttribute::parse(key, raw_args, context, compile) {
                Ok(a) => Ok(NaughtyAttribute::Validator(a)),
                Err(m) => Err(m),
            }
        } else {
            Err(string_of("unknown attribute"))
        }
    }

    /// The key that names this attribute.
    pub fn get_key(&self) -> (r: &'static str)
        ensures
            r@ == attribute_key(self@),
    {
        match self {
            NaughtyAttribute::Decorator(a) => a.get_key(),
            NaughtyAttribute::Drawer(a) => a.get_key(),
            NaughtyAttribute::Meta(a) => a.get_key(),
            NaughtyAttribute::Validator(a) => a.get_key(),
        }
    }
}

/// Whether `key` names an attribute of any group.
pub fn is_known_key(key: &str) -> (r: bool)
    ensures
        r == is_attribute_key(key@),
{
    DecoratorAttribute::is_known_key(key) || DrawerAttribute::is_known_key(key)
        || MetaAttribute::is_known_key(key) || ValidatorAttribute::is_known_key(key)
}

/// An attribute that reads names itself by the key it was read under.
pub proof fn lemma_parsed_attribute_keeps_its_key(
    key: Seq<char>,
    raw_args: Seq<char>,
    t: VariantType,
    constants: Seq<Constant>,
    errors: spec_fn(Seq<char>) -> Option<Seq<char>>,
)
    ensures
        attribute_of(key, raw_args, t, constants, errors) matches Ok(a) ==> attribute_key(a) == key,
{
}

/// A key that names no attribute is refused as unknown, whatever its arguments.
pub proof fn lemma_unknown_key_is_refused(
    key: Seq<char>,
    raw_args: Seq<char>,
    t: VariantType,
    constants: Seq<Constant>,
    errors: spec_fn(Seq<char>) -> Option<Seq<char>>,
)
    requires
        !is_attribute_key(key),
    ensures
        attribute_of(key, raw_args, t, constants, errors) == Err::<AttributeView, Seq<char>>(
            unknown_attribute(),
        ),
{
}

} // verus!
