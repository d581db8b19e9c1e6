//! Attributes that replace a property's editor.

pub mod dropdown;
pub mod enum_flags;
pub mod min_max_slider;

use vstd::prelude::*;
use vstd::string::*;

use crate::attributes::ParseContext;
use crate::expression::{answers_compile, compiler_ready};
use crate::constants::Constant;
use crate::expressions::options_expression::options_expression_of;
use crate::text::{str_eq, string_of};
use crate::variant_type::VariantType;
use dropdown::Dropdown;
use enum_flags::{enum_flags_of, EnumFlags};
use min_max_slider::{min_max_slider_of, MinMaxSlider};

verus! {

/// An attribute that replaces a property's editor.
pub enum DrawerAttribute {
    Dropdown(Dropdown),
    EnumFlags(EnumFlags),
    MinMaxSlider(MinMaxSlider),
}

/// What a drawer holds, by its kind.
pub enum DrawerView {
    /// The options' expression and the property's type.
    Dropdown(Seq<char>, VariantType),
    /// The flags editor's hint text.
    EnumFlags(Seq<char>),
    /// The expressions of the two bounds.
    MinMaxSlider(Seq<char>, Seq<char>),
}

impl View for DrawerAttribute {
    type V = DrawerView;

    open spec fn view(&self) -> DrawerView {
        match self {
            DrawerAttribute::Dropdown(d) => DrawerView::Dropdown(d.options@, d.variant_type),
            DrawerAttribute::EnumFlags(f) => DrawerView::EnumFlags(f@),
            DrawerAttribute::MinMaxSlider(s) => DrawerView::MinMaxSlider(s@.0, s@.1),
        }
    }
}

/// The keys of the drawers.
pub open spec fn is_drawer_key(key: Seq<char>) -> bool {
    key == "dropdown"@ || key == "enum_flags"@ || key == "min_max_slider"@
}

/// What the drawer that `key` names reads from `raw_args` on a property of
/// type `t`, with the script's `constants`; `errors` tells what the engine's
/// compiler reports for an expression's source.
pub open spec fn drawer_of(
    key: Seq<char>,
    raw_args: Seq<char>,
    t: VariantType,
    constants: Seq<Constant>,
    errors: spec_fn(Seq<char>) -> Option<Seq<char>>,
) -> Result<DrawerView, Seq<char>> {
    if key == "dropdown"@ {
        match options_expression_of(raw_args, errors) {
            Ok(e) => Ok(DrawerView::Dropdown(e, t)),
            Err(m) => Err(m),
        }
    } else if key == "enum_flags"@ {
        match enum_flags_of(raw_args, t, constants) {
            Ok(h) => Ok(DrawerView::EnumFlags(h)),
            Err(m) => Err(m),
        }
    } else if key == "min_max_slider"@ {
        match min_max_slider_of(raw_args, t, errors) {
            Ok((min, max)) => Ok(DrawerView::MinMaxSlider(min, max)),
            Err(m) => Err(m),
        }
    } else {
        Err("unknown attribute"@)
    }
}

/// The key that names a drawer.
pub open spec fn drawer_key(d: DrawerView) -> Seq<char> {
    match d {
        DrawerView::Dropdown(..) => "dropdown"@,
        DrawerView::EnumFlags(_) => "enum_flags"@,
        DrawerView::MinMaxSlider(..) => "min_max_slider"@,
    }
}

impl DrawerAttribute {
    /// Reads the drawer that `key` names; `compile` answers for a source the
    /// error the engine's compiler reports, or none.
    pub fn parse<F: Fn(&str) -> Option<String>>(key: &str, raw_args: &str, context: &ParseContext, compile: &F) -> (r:
        Result<Self, String>)
        requires
            compiler_ready(*compile),
        ensures
            forall|errors: spec_fn(Seq<char>) -> Option<Seq<char>>|
                #[trigger] answers_compile(*compile, errors) ==> crate::text::result_view(r)
                    == drawer_of(key@, raw_args@, context.variant_type, context.constants.entries@, errors),
    {
        if str_eq(key, dropdown::KEY) {
            match Dropdown::parse(raw_args, context, compile) {
                Ok(d) => Ok(DrawerAttribute::Dropdown(d)),
                Err(m) => Err(m),
            }
        } else if str_eq(key, enum_flags::KEY) {
            match EnumFlags::parse(raw_args, context) {
                Ok(f) => Ok(DrawerAttribute::EnumFlags(f)),
                Err(m) => Err(m),
            }
        } else if str_eq(key, min_max_slider::KEY) {
            match MinMaxSlider::parse(raw_args, context, compile) {
                Ok(s) => Ok(DrawerAttribute::MinMaxSlider(s)),
                Err(m) => Err(m),
            }
        } else {
            Err(string_of("unknown attribute"))
        }
    }

    /// Whether `key` names a drawer.
    pub fn is_known_key(key: &str) -> (r: bool)
        ensures
            r == is_drawer_key(key@),
    {
        str_eq(key, dropdown::KEY) || str_eq(key, enum_flags::KEY) || str_eq(key, min_max_slider::KEY)
    }

    /// The key that names this drawer.
    pub fn get_key(&self) -> (r: &'static str)
        ensures
            r@ == drawer_key(self@),
    {
        match self {
            DrawerAttribute::Dropdown(_) => dropdown::KEY,
            DrawerAttribute::EnumFlags(_) => enum_flags::KEY,
            DrawerAttribute::MinMaxSlider(_) => min_max_slider::KEY,
        }
    }
}

/// The drawer keys are different words.
proof fn lemma_drawer_keys_differ()
    ensures
        "dropdown"@.len() == 8,
        "enum_flags"@.len() == 10,
        "min_max_slider"@.len() == 14,
{
    reveal_strlit("dropdown");
    reveal_strlit("enum_flags");
    reveal_strlit("min_max_slider");
}

/// The key fixes the kind of drawer: `dropdown` lists options of the
/// property's type, `enum_flags` edits flags, `min_max_slider` a range; each
/// names itself by its key.
pub proof fn lemma_the_key_fixes_the_drawer(
    key: Seq<char>,
    raw_args: Seq<char>,
    t: VariantType,
    constants: Seq<Constant>,
    errors: spec_fn(Seq<char>) -> Option<Seq<char>>,
    text: Seq<char>,
)
    ensures
        drawer_of(key, raw_args, t, constants, errors) matches Ok(d) ==> ((key == "dropdown"@ <==> d is Dropdown)
            && (key == "enum_flags"@ <==> d is EnumFlags) && (key == "min_max_slider"@ <==> d is MinMaxSlider)),
        drawer_of(key, raw_args, t, constants, errors) matches Ok(DrawerView::Dropdown(_, u)) ==> u == t,
        drawer_key(DrawerView::Dropdown(text, t)) == "dropdown"@,
        drawer_key(DrawerView::EnumFlags(text)) == "enum_flags"@,
        drawer_key(DrawerView::MinMaxSlider(text, text)) == "min_max_slider"@,
{
    lemma_drawer_keys_differ();
}

} // verus!
