//! Attributes that change how a property is shown or what happens when it
//! changes.

pub mod condition;
pub mod disable_if;
pub mod enable_if;
pub mod hide_if;
pub mod label;
pub mod on_value_changed;
pub mod show_if;

use vstd::prelude::*;
use vstd::string::*;

use crate::attributes::ParseContext;
use crate::expression::{answers_compile, compiler_ready};
use crate::text::{str_eq, string_of};
use condition::condition_of;
use disable_if::DisableIf;
use enable_if::EnableIf;
use hide_if::HideIf;
use label::{label_of, Label};
use on_value_changed::{on_value_changed_of, OnValueChanged};
use show_if::ShowIf;

verus! {

pub const KEY_READ_ONLY: &'static str = "read_only";

/// An attribute that changes how a property is shown or what happens when it
/// changes.
pub enum MetaAttribute {
    ShowIf(ShowIf),
    HideIf(HideIf),
    EnableIf(EnableIf),
    DisableIf(DisableIf),
    ReadOnly,
    Label(Label),
    OnValueChanged(OnValueChanged),
}

/// What a meta attribute holds, by its kind: the condition's text, the label's
/// text or the method's name.
pub enum MetaView {
    ShowIf(Seq<char>),
    HideIf(Seq<char>),
    EnableIf(Seq<char>),
    DisableIf(Seq<char>),
    ReadOnly,
    Label(Seq<char>),
    OnValueChanged(Seq<char>),
}

impl View for MetaAttribute {
    type V = MetaView;

    open spec fn view(&self) -> MetaView {
        match self {
            MetaAttribute::ShowIf(a) => MetaView::ShowIf(a@),
            MetaAttribute::HideIf(a) => MetaView::HideIf(a@),
            MetaAttribute::EnableIf(a) => MetaView::EnableIf(a@),
            MetaAttribute::DisableIf(a) => MetaView::DisableIf(a@),
            MetaAttribute::ReadOnly => MetaView::ReadOnly,
            MetaAttribute::Label(a) => MetaView::Label(a@),
            MetaAttribute::OnValueChanged(a) => MetaView::OnValueChanged(a@),
        }
    }
}

/// The keys of the meta attributes.
pub open spec fn is_meta_key(key: Seq<char>) -> bool {
    ||| key == "show_if"@
    ||| key == "hide_if"@
    ||| key == "enable_if"@
    ||| key == "disable_if"@
    ||| key == "read_only"@
    ||| key == "label"@
    ||| key == "on_value_changed"@
}

/// A condition-reading result as a meta attribute of the kind `wrap` makes.
pub open spec fn map_condition(
    r: Result<Seq<char>, Seq<char>>,
    wrap: spec_fn(Seq<char>) -> MetaView,
) -> Result<MetaView, Seq<char>> {
    match r {
        Ok(c) => Ok(wrap(c)),
        Err(m) => Err(m),
    }
}

/// What the meta attribute that `key` names reads from `raw_args`; `errors`
/// tells what the engine's compiler reports for an expression's source.
pub open spec fn meta_of(
    key: Seq<char>,
    raw_args: Seq<char>,
    errors: spec_fn(Seq<char>) -> Option<Seq<char>>,
) -> Result<MetaView, Seq<char>> {
    if key == "show_if"@ {
        map_condition(condition_of(raw_args, errors), |c| MetaView::ShowIf(c))
    } else if key == "hide_if"@ {
        map_condition(condition_of(raw_args, errors), |c| MetaView::HideIf(c))
    } else if key == "enable_if"@ {
        map_condition(condition_of(raw_args, errors), |c| MetaView::EnableIf(c))
    } else if key == "disable_if"@ {
        map_condition(condition_of(raw_args, errors), |c| MetaView::DisableIf(c))
    } else if key == "read_only"@ {
        Ok(MetaView::ReadOnly)
    } else if key == "label"@ {
        map_condition(label_of(raw_args), |t| MetaView::Label(t))
    } else if key == "on_value_changed"@ {
        map_condition(on_value_changed_of(raw_args), |m| MetaView::OnValueChanged(m))
    } else {
        Err("unknown attribute"@)
    }
}

/// The key that names a meta attribute.
pub open spec fn meta_key(m: MetaView) -> Seq<char> {
    match m {
        MetaView::ShowIf(_) => "show_if"@,
        MetaView::HideIf(_) => "hide_if"@,
        MetaView::EnableIf(_) => "enable_if"@,
        MetaView::DisableIf(_) => "disable_if"@,
        MetaView::ReadOnly => "read_only"@,
        MetaView::Label(_) => "label"@,
        MetaView::OnValueChanged(_) => "on_value_changed"@,
    }
}

impl MetaAttribute {
    /// Reads the meta attribute that `key` names; `compile` answers for a
    /// source the error the engine's compiler reports, or none.
    pub fn parse<F: Fn(&str) -> Option<String>>(key: &str, raw_args: &str, context: &ParseContext, compile: &F) -> (r:
        Result<Self, String>)
        requires
            compiler_ready(*compile),
        ensures
            forall|errors: spec_fn(Seq<char>) -> Option<Seq<char>>|
                #[trigger] answers_compile(*compile, errors) ==> crate::text::result_view(r) == meta_of(
                    key@,
                    raw_args@,
                    errors,
                ),
    {
        if str_eq(key, show_if::KEY) {
            match ShowIf::parse(raw_args, context, compile) {
                Ok(a) => Ok(MetaAttribute::ShowIf(a)),
                Err(e) => Err(e),
            }
        } else if str_eq(key, hide_if::KEY) {
            match HideIf::parse(raw_args, context, compile) {
                Ok(a) => Ok(MetaAttribute::HideIf(a)),
                Err(e) => Err(e),
            }
        } else if str_eq(key, enable_if::KEY) {
            match EnableIf::parse(raw_args, context, compile) {
                Ok(a) => Ok(MetaAttribute::EnableIf(a)),
                Err(e) => Err(e),
            }
        } else if str_eq(key, disable_if::KEY) {
            match DisableIf::parse(raw_args, context, compile) {
                Ok(a) => Ok(MetaAttribute::DisableIf(a)),
                Err(e) => Err(e),
            }
        } else if str_eq(key, KEY_READ_ONLY) {
            Ok(MetaAttribute::ReadOnly)
        } else if str_eq(key, label::KEY) {
            match Label::parse(raw_args) {
                Ok(a) => Ok(MetaAttribute::Label(a)),
                Err(e) => Err(e),
            }
        } else if str_eq(key, on_value_changed::KEY) {
            match OnValueChanged::parse(raw_args) {
                Ok(a) => Ok(MetaAttribute::OnValueChanged(a)),
                Err(e) => Err(e),
            }
        } else {
            Err(string_of("unknown attribute"))
        }
    }

    /// Whether `key` names a meta attribute.
    pub fn is_known_key(key: &str) -> (r: bool)
        ensures
            r == is_meta_key(key@),
    {
        str_eq(key, show_if::KEY) || str_eq(key, hide_if::KEY) || str_eq(key, enable_if::KEY)
            || str_eq(key, disable_if::KEY) || str_eq(key, KEY_READ_ONLY) || str_eq(key, label::KEY)
            || str_eq(key, on_value_changed::KEY)
    }

    /// The key that names this attribute.
    pub fn get_key(&self) -> (r: &'static str)
        ensures
            r@ == meta_key(self@),
    {
        match self {
            MetaAttribute::ShowIf(_) => show_if::KEY,
            MetaAttribute::HideIf(_) => hide_if::KEY,
            MetaAttribute::EnableIf(_) => enable_if::KEY,
            MetaAttribute::DisableIf(_) => disable_if::KEY,
            MetaAttribute::ReadOnly => KEY_READ_ONLY,
            MetaAttribute::Label(_) => label::KEY,
            MetaAttribute::OnValueChanged(_) => on_value_changed::KEY,
        }
    }
}

/// The meta keys are different words.
proof fn lemma_meta_keys_differ()
    ensures
        "show_if"@.len() == 7,
        "hide_if"@.len() == 7,
        "enable_if"@.len() == 9,
        "disable_if"@.len() == 10,
        "read_only"@.len() == 9,
        "label"@.len() == 5,
        "on_value_changed"@.len() == 16,
        "show_if"@ != "hide_if"@,
        "enable_if"@ != "read_only"@,
{
    reveal_strlit("show_if");
    reveal_strlit("hide_if");
    reveal_strlit("enable_if");
    reveal_strlit("disable_if");
    reveal_strlit("read_only");
    reveal_strlit("label");
    reveal_strlit("on_value_changed");
    assert("show_if"@[0] != "hide_if"@[0]);
    assert("enable_if"@[0] != "read_only"@[0]);
}

/// The key fixes the kind of meta attribute: `show_if` and `hide_if` read
/// visibility conditions that show and hide, `enable_if` and `disable_if`
/// editability conditions that unlock and lock, `read_only` locks, `label`
/// names and `on_value_changed` calls back; each names itself by its key.
pub proof fn lemma_the_key_fixes_the_meta_attribute(
    key: Seq<char>,
    raw_args: Seq<char>,
    errors: spec_fn(Seq<char>) -> Option<Seq<char>>,
    text: Seq<char>,
)
    ensures
        meta_of(key, raw_args, errors) matches Ok(m) ==> ((key == "show_if"@ <==> m is ShowIf) && (key
            == "hide_if"@ <==> m is HideIf) && (key == "enable_if"@ <==> m is EnableIf) && (key
            == "disable_if"@ <==> m is DisableIf) && (key == "read_only"@ <==> m is ReadOnly) && (key
            == "label"@ <==> m is Label) && (key == "on_value_changed"@ <==> m is OnValueChanged)),
        meta_key(MetaView::ShowIf(text)) == "show_if"@,
        meta_key(MetaView::HideIf(text)) == "hide_if"@,
        meta_key(MetaView::EnableIf(text)) == "enable_if"@,
        meta_key(MetaView::DisableIf(text)) == "disable_if"@,
        meta_key(MetaView::ReadOnly) == "read_only"@,
        meta_key(MetaView::Label(text)) == "label"@,
        meta_key(MetaView::OnValueChanged(text)) == "on_value_changed"@,
{
    lemma_meta_keys_differ();
}

} // verus!
