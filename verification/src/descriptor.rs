//! What the inspector knows of a script's properties: which of them the hint
//! strings claim, and the attributes each claimed property has.

use vstd::prelude::*;
use vstd::string::*;

use crate::annotation::{annotation_of, builtin_hint_of, AnnotationView, BuiltinHint, PropertyAnnotation};
use crate::attributes::decorator::{DecoratorAttribute, DecoratorView};
use crate::attributes::drawer::{DrawerAttribute, DrawerView};
use crate::attributes::meta::{MetaAttribute, MetaView};
use crate::attributes::validator::{ValidatorAttribute, ValidatorView};
use crate::attributes::{
    attribute_of, is_attribute_key, is_known_key, AttributeView, NaughtyAttribute, ParseContext,
};
use crate::constants::{Constant, Constants};
use crate::expression::{answers_compile, compiler_ready};
use crate::text::{chars_of, concat3, str_eq, string_of};
use crate::variant_type::VariantType;

verus! {

/// The usage flag of a property that the editor shows.
pub const USAGE_EDITOR: u64 = 4;

/// The usage flag of a group heading in the property list.
pub const USAGE_GROUP: u64 = 64;

/// The usage flag of a category heading in the property list.
pub const USAGE_CATEGORY: u64 = 128;

/// The usage flag of a subgroup heading in the property list.
pub const USAGE_SUBGROUP: u64 = 256;

/// The hint that a property's editor gets.
#[derive(Clone, Copy, Debug, PartialEq, Eq, Structural)]
pub enum HintValue {
    /// No hint.
    NoHint,
    /// A hint that the hint string names by a key.
    Builtin(BuiltinHint),
    /// A hint that the engine reports, by its number.
    Engine(i64),
}

/// A property as the script's property list describes it.
pub struct PropertyInfo {
    pub name: String,
    pub variant_type: VariantType,
    pub hint: HintValue,
    pub hint_text: String,
    pub usage: u64,
}

/// A property, with the attributes its hint string gives when it claims it.
pub struct PropertyDescriptor {
    pub name: String,
    pub variant_type: VariantType,
    pub hint: HintValue,
    pub hint_text: String,
    pub usage: u64,
    pub claimed: bool,
    pub decorators: Vec<DecoratorAttribute>,
    pub drawer: Option<DrawerAttribute>,
    pub metas: Vec<MetaAttribute>,
    pub validators: Vec<ValidatorAttribute>,
}

/// The value of a property descriptor.
#[verifier::ext_equal]
pub struct PropertyView {
    pub name: Seq<char>,
    pub variant_type: VariantType,
    pub hint: HintValue,
    pub hint_text: Seq<char>,
    pub usage: u64,
    pub claimed: bool,
    pub decorators: Seq<DecoratorView>,
    pub drawer: Option<DrawerView>,
    pub metas: Seq<MetaView>,
    pub validators: Seq<ValidatorView>,
}

impl View for PropertyDescriptor {
    type V = PropertyView;

    open spec fn view(&self) -> PropertyView {
        PropertyView {
            name: self.name@,
            variant_type: self.variant_type,
            hint: self.hint,
            hint_text: self.hint_text@,
            usage: self.usage,
            claimed: self.claimed,
            decorators: self.decorators@.map_values(|d: DecoratorAttribute| d@),
            drawer: match self.drawer {
                Some(d) => Some(d@),
                None => None,
            },
            metas: self.metas@.map_values(|m: MetaAttribute| m@),
            validators: self.validators@.map_values(|v: ValidatorAttribute| v@),
        }
    }
}

/// Whether the editor shows a property with these usage flags: it has the
/// editor flag and is no group, subgroup or category heading.
pub open spec fn is_editor_usage(usage: u64) -> bool {
    usage & USAGE_EDITOR != 0 && usage & (USAGE_GROUP | USAGE_SUBGROUP | USAGE_CATEGORY) == 0
}

/// Whether the editor shows a property with these usage flags.
pub fn is_editor_property(usage: u64) -> (r: bool)
    ensures
        r == is_editor_usage(usage),
{
    usage & USAGE_EDITOR != 0 && usage & (USAGE_GROUP | USAGE_SUBGROUP | USAGE_CATEGORY) == 0
}

/// A property as its info gives it, claimed by nothing.
pub open spec fn plain_view(info: PropertyInfo) -> PropertyView {
    PropertyView {
        name: info.name@,
        variant_type: info.variant_type,
        hint: info.hint,
        hint_text: info.hint_text@,
        usage: info.usage,
        claimed: false,
        decorators: Seq::empty(),
        drawer: None,
        metas: Seq::empty(),
        validators: Seq::empty(),
    }
}

/// A property whose hint string names nothing of this library: it keeps no
/// hint, so the engine's default editor shows it plainly.
pub open spec fn unclaimed_view(info: PropertyInfo) -> PropertyView {
    PropertyView { hint: HintValue::NoHint, hint_text: Seq::empty(), ..plain_view(info) }
}

/// The hint that an annotation's built-in entry names.
pub open spec fn hint_of_annotation(a: AnnotationView) -> HintValue {
    match a.builtin {
        Some((k, _)) => match builtin_hint_of(k) {
            Some(h) => HintValue::Builtin(h),
            None => HintValue::NoHint,
        },
        None => HintValue::NoHint,
    }
}

/// A property that its hint string claims, before its attributes are read.
pub open spec fn claimed_view(info: PropertyInfo, a: AnnotationView) -> PropertyView {
    PropertyView {
        hint: hint_of_annotation(a),
        hint_text: match a.builtin {
            Some((_, args)) => args,
            None => Seq::empty(),
        },
        claimed: true,
        ..plain_view(info)
    }
}

/// A diagnostic about an attribute of a property: `path.name - key: message`.
pub open spec fn diagnostic(path: Seq<char>, name: Seq<char>, key: Seq<char>, message: Seq<char>) -> Seq<char> {
    path + "."@ + name + " - "@ + key + ": "@ + message
}

/// The message when a second drawer replaces the first.
pub open spec fn one_drawer_message() -> Seq<char> {
    "a property can have only one drawer, keeping the last one"@
}

/// The property and diagnostics after one more attribute entry. An entry
/// that fails to read, its expression refused by the compiler included,
/// leaves the property as it was and adds a diagnostic; so a drawer whose
/// expression does not compile replaces no earlier drawer.
pub open spec fn add_attribute(
    state: (PropertyView, Seq<Seq<char>>),
    entry: (Seq<char>, Seq<char>),
    path: Seq<char>,
    constants: Seq<Constant>,
    errors: spec_fn(Seq<char>) -> Option<Seq<char>>,
) -> (PropertyView, Seq<Seq<char>>) {
    let (p, d) = state;
    let (key, raw) = entry;
    match attribute_of(key, raw, p.variant_type, constants, errors) {
        Ok(AttributeView::Decorator(a)) => (PropertyView { decorators: p.decorators.push(a), ..p }, d),
        Ok(AttributeView::Drawer(a)) => (
            PropertyView { drawer: Some(a), ..p },
            if p.drawer is Some {
                d.push(diagnostic(path, p.name, key, one_drawer_message()))
            } else {
                d
            },
        ),
        Ok(AttributeView::Meta(a)) => (PropertyView { metas: p.metas.push(a), ..p }, d),
        Ok(AttributeView::Validator(a)) => (PropertyView { validators: p.validators.push(a), ..p }, d),
        Err(m) => (p, d.push(diagnostic(path, p.name, key, m))),
    }
}

/// The property and diagnostics after the attribute entries, read in order.
pub open spec fn add_attributes(
    state: (PropertyView, Seq<Seq<char>>),
    entries: Seq<(Seq<char>, Seq<char>)>,
    path: Seq<char>,
    constants: Seq<Constant>,
    errors: spec_fn(Seq<char>) -> Option<Seq<char>>,
) -> (PropertyView, Seq<Seq<char>>)
    decreases entries.len(),
{
    if entries.len() == 0 {
        state
    } else {
        add_attribute(
            add_attributes(state, entries.drop_last(), path, constants, errors),
            entries.last(),
            path,
            constants,
            errors,
        )
    }
}

/// The diagnostics for the keys that name nothing.
pub open spec fn unknown_key_diagnostics(path: Seq<char>, name: Seq<char>, keys: Seq<Seq<char>>) -> Seq<
    Seq<char>,
> {
    keys.map_values(|k: Seq<char>| diagnostic(path, name, k, "unknown attribute"@))
}

/// What one property of the list gives: its descriptor, if the editor shows it,
/// and the diagnostics of its attributes.
pub open spec fn describe(
    path: Seq<char>,
    info: PropertyInfo,
    constants: Seq<Constant>,
    errors: spec_fn(Seq<char>) -> Option<Seq<char>>,
) -> (
    Option<PropertyView>,
    Seq<Seq<char>>,
) {
    if !is_editor_usage(info.usage) {
        (None, Seq::empty())
    } else if info.hint != HintValue::NoHint || info.hint_text@.len() == 0 {
        (Some(plain_view(info)), Seq::empty())
    } else {
        let a = annotation_of(info.hint_text@, |k: Seq<char>| is_attribute_key(k));
        let unknown = unknown_key_diagnostics(path, info.name@, a.unknown_keys);
        if !(a.builtin is Some || a.attributes.len() > 0) {
            (Some(unclaimed_view(info)), unknown)
        } else {
            let (p, d) = add_attributes((claimed_view(info, a), unknown), a.attributes, path, constants, errors);
            (Some(p), d)
        }
    }
}

/// What the property list gives: the descriptors of the properties the editor
/// shows, in order, and every diagnostic, in order.
pub open spec fn describe_all(
    path: Seq<char>,
    infos: Seq<PropertyInfo>,
    constants: Seq<Constant>,
    errors: spec_fn(Seq<char>) -> Option<Seq<char>>,
) -> (
    Seq<PropertyView>,
    Seq<Seq<char>>,
)
    decreases infos.len(),
{
    if infos.len() == 0 {
        (Seq::empty(), Seq::empty())
    } else {
        let (ps, ds) = describe_all(path, infos.drop_last(), constants, errors);
        let (p, d) = describe(path, infos.last(), constants, errors);
        (
            match p {
                Some(p) => ps.push(p),
                None => ps,
            },
            ds + d,
        )
    }
}

/// The views of a vector of strings.
pub open spec fn string_views(v: Seq<String>) -> Seq<Seq<char>> {
    v.map_values(|s: String| s@)
}

/// `path.name - key: message`.
fn make_diagnostic(path: &str, name: &str, key: &str, message: &str) -> (r: String)
    ensures
        r@ == diagnostic(path@, name@, key@, message@),
{
    let mut r = concat3(path, ".", name);
    r.append(" - ");
    r.append(key);
    r.append(": ");
    r.append(message);
    r
}

impl PropertyDescriptor {
    /// The property as its info gives it, claimed by nothing.
    pub fn plain(info: &PropertyInfo) -> (r: Self)
        ensures
            r@ == plain_view(*info),
    {
        let r = PropertyDescriptor {
            name: info.name.clone(),
            variant_type: info.variant_type,
            hint: info.hint,
            hint_text: info.hint_text.clone(),
            usage: info.usage,
            claimed: false,
            decorators: Vec::new(),
            drawer: None,
            metas: Vec::new(),
            validators: Vec::new(),
        };
        assert(r@ =~= plain_view(*info));
        r
    }

    /// The property without a hint: the engine's default editor shows it.
    pub fn unclaimed(info: &PropertyInfo) -> (r: Self)
        ensures
            r@ == unclaimed_view(*info),
    {
        let mut r = Self::plain(info);
        r.hint = HintValue::NoHint;
        r.hint_text = String::new();
        assert(r@ =~= unclaimed_view(*info));
        r
    }

    /// The property claimed by its annotation, with the built-in hint the
    /// annotation names, before its attributes are read.
    pub fn claimed(info: &PropertyInfo, annotation: &PropertyAnnotation) -> (r: Self)
        ensures
            r@ == claimed_view(*info, annotation@),
    {
        let mut r = Self::plain(info);
        r.hint = match annotation.get_builtin_hint() {
            Some(h) => HintValue::Builtin(h),
            None => HintValue::NoHint,
        };
        r.hint_text = annotation.get_builtin_hint_text();
        r.claimed = true;
        assert(r@ =~= claimed_view(*info, annotation@));
        r
    }

    /// Whether a hint string claims the property.
    pub fn is_naughty(&self) -> (r: bool)
        ensures
            r == self@.claimed,
    {
        self.claimed
    }
}

/// Reads the attribute entries of a claimed property into it.
fn add_attribute_entries<F: Fn(&str) -> Option<String>>(
    property: &mut PropertyDescriptor,
    diagnostics: &mut Vec<String>,
    entries: &Vec<crate::annotation::AttributeEntry>,
    path: &str,
    constants: &Constants,
    compile: &F,
)
    requires
        compiler_ready(*compile),
    ensures
        forall|errors: spec_fn(Seq<char>) -> Option<Seq<char>>|
            #[trigger] answers_compile(*compile, errors) ==> (
                final(property)@,
                string_views(final(diagnostics)@),
            ) == add_attributes(
                (old(property)@, string_views(old(diagnostics)@)),
                entries@.map_values(|e: crate::annotation::AttributeEntry| e@),
                path@,
                constants.entries@,
                errors,
            ),
{
    let ghost all = entries@.map_values(|e: crate::annotation::AttributeEntry| e@);
    let ghost start = (property@, string_views(diagnostics@));
    let mut i: usize = 0;
    assert(all.take(0) =~= Seq::<(Seq<char>, Seq<char>)>::empty());
    while i < entries.len()
        invariant
            i <= entries.len(),
            all == entries@.map_values(|e: crate::annotation::AttributeEntry| e@),
            compiler_ready(*compile),
            forall|errors: spec_fn(Seq<char>) -> Option<Seq<char>>|
                #[trigger] answers_compile(*compile, errors) ==> (property@, string_views(diagnostics@))
                    == add_attributes(start, all.take(i as int), path@, constants.entries@, errors),
        decreases entries.len() - i,
    {
        assert(all.take(i + 1).drop_last() =~= all.take(i as int));
        assert(all.take(i + 1).last() == entries@[i as int]@);
        let entry = &entries[i];
        let context = ParseContext { variant_type: property.variant_type, constants };
        let ghost p0 = property@;
        let ghost d0 = string_views(diagnostics@);
        match NaughtyAttribute::parse(entry.key.as_str(), entry.raw_args.as_str(), &context, compile) {
            Ok(NaughtyAttribute::Decorator(a)) => {
                property.decorators.push(a);
                assert(property@ =~= PropertyView { decorators: p0.decorators.push(a@), ..p0 });
            },
            Ok(NaughtyAttribute::Drawer(a)) => {
                if property.drawer.is_some() {
                    let m = make_diagnostic(
                        path,
                        property.name.as_str(),
                        entry.key.as_str(),
                        "a property can have only one drawer, keeping the last one",
                    );
                    diagnostics.push(m);
                    assert(string_views(diagnostics@) =~= d0.push(m@));
                }
                property.drawer = Some(a);
                assert(property@ =~= PropertyView { drawer: Some(a@), ..p0 });
            },
            Ok(NaughtyAttribute::Meta(a)) => {
                property.metas.push(a);
                assert(property@ =~= PropertyView { metas: p0.metas.push(a@), ..p0 });
            },
            Ok(NaughtyAttribute::Validator(a)) => {
                property.validators.push(a);
                assert(property@ =~= PropertyView { validators: p0.validators.push(a@), ..p0 });
            },
            Err(e) => {
                let m = make_diagnostic(
                    path,
                    property.name.as_str(),
                    entry.key.as_str(),
                    e.as_str(),
                );
                diagnostics.push(m);
                assert(string_views(diagnostics@) =~= d0.push(m@));
            },
        }
        i = i + 1;
    }
    assert(all.take(entries.len() as int) =~= all);
}

/// Reads one property of the list: its descriptor, if the editor shows it,
/// and the diagnostics of its attributes.
pub fn describe_property<F: Fn(&str) -> Option<String>>(
    path: &str,
    info: &PropertyInfo,
    constants: &Constants,
    compile: &F,
) -> (r: (Option<PropertyDescriptor>, Vec<String>))
    requires
        compiler_ready(*compile),
    ensures
        forall|errors: spec_fn(Seq<char>) -> Option<Seq<char>>|
            #[trigger] answers_compile(*compile, errors) ==> (
                match r.0 {
                    Some(p) => Some(p@),
                    None => None,
                },
                string_views(r.1@),
            ) == describe(path@, *info, constants.entries@, errors),
{
    let mut diagnostics: Vec<String> = Vec::new();
    if !is_editor_property(info.usage) {
        assert(string_views(diagnostics@) =~= Seq::<Seq<char>>::empty());
        return (None, diagnostics);
    }
    if info.hint != HintValue::NoHint || info.hint_text.as_str().unicode_len() == 0 {
        assert(string_views(diagnostics@) =~= Seq::<Seq<char>>::empty());
        return (Some(PropertyDescriptor::plain(info)), diagnostics);
    }
    let annotation = PropertyAnnotation::parse(info.hint_text.as_str(), is_known_key);
    let ghost known = |k: Seq<char>| is_attribute_key(k);
    assert(crate::annotation::answers_as(is_known_key, known));
    assert(annotation@ == annotation_of(info.hint_text@, known));
    let mut i: usize = 0;
    while i < annotation.unknown_keys.len()
        invariant
            i <= annotation.unknown_keys.len(),
            string_views(diagnostics@) == unknown_key_diagnostics(
                path@,
                info.name@,
                annotation@.unknown_keys.take(i as int),
            ),
        decreases annotation.unknown_keys.len() - i,
    {
        let ghost before = string_views(diagnostics@);
        let m = make_diagnostic(
            path,
            info.name.as_str(),
            annotation.unknown_keys[i].as_str(),
            "unknown attribute",
        );
        diagnostics.push(m);
        assert(string_views(diagnostics@) =~= before.push(m@));
        assert(annotation@.unknown_keys.take(i + 1) =~= annotation@.unknown_keys.take(i as int).push(
            annotation.unknown_keys@[i as int]@,
        ));
        assert(unknown_key_diagnostics(path@, info.name@, annotation@.unknown_keys.take(i + 1))
            =~= unknown_key_diagnostics(path@, info.name@, annotation@.unknown_keys.take(i as int)).push(
            m@,
        ));
        i = i + 1;
    }
    assert(annotation@.unknown_keys.take(annotation.unknown_keys.len() as int)
        =~= annotation@.unknown_keys);
    if !annotation.is_claimed() {
        return (Some(PropertyDescriptor::unclaimed(info)), diagnostics);
    }
    let mut property = PropertyDescriptor::claimed(info, &annotation);
    add_attribute_entries(&mut property, &mut diagnostics, &annotation.attributes, path, constants, compile);
    (Some(property), diagnostics)
}

/// The last segment of a path: what follows its last `/`, or the whole path.
pub open spec fn last_segment(p: Seq<char>) -> Seq<char>
    decreases p.len(),
{
    if p.len() == 0 {
        p
    } else if p.last() == '/' {
        Seq::empty()
    } else {
        last_segment(p.drop_last()).push(p.last())
    }
}

/// The last segment of a path, as `rsplit('/').next()` gives it.
pub fn get_script_name(path: &str) -> (r: String)
    ensures
        r@ == last_segment(path@),
{
    let chars = chars_of(path);
    let mut start: usize = chars.len();
    assert(chars@.take(start as int) =~= path@);
    assert(chars@.skip(start as int) =~= Seq::<char>::empty());
    assert(last_segment(path@) + Seq::<char>::empty() =~= last_segment(path@));
    while start > 0 && chars[start - 1] != '/'
        invariant
            start <= chars.len(),
            chars@ == path@,
            last_segment(path@) == last_segment(chars@.take(start as int)) + chars@.skip(
                start as int,
            ),
        decreases start,
    {
        let ghost t = chars@.take(start as int);
        assert(t.drop_last() =~= chars@.take(start - 1));
        assert(chars@.skip(start - 1) =~= seq![chars@[start - 1]] + chars@.skip(start as int));
        start = start - 1;
    }
    assert(last_segment(chars@.take(start as int)) =~= Seq::<char>::empty());
    path.substring_char(start, chars.len())
        .to_owned()
}

/// The names of the claimed properties among `properties`, in order.
pub open spec fn claimed_names_of(properties: Seq<PropertyView>) -> Seq<Seq<char>>
    decreases properties.len(),
{
    if properties.len() == 0 {
        Seq::empty()
    } else {
        let rest = claimed_names_of(properties.drop_last());
        if properties.last().claimed {
            rest.push(properties.last().name)
        } else {
            rest
        }
    }
}

/// What the inspector knows of a script: its path and name and its properties.
pub struct ClassDescriptor {
    pub script_path: String,
    pub script_name: String,
    pub properties: Vec<PropertyDescriptor>,
}

impl ClassDescriptor {
    /// Reads the script's property list: the descriptors of the properties
    /// that the editor shows, and the diagnostics of their attributes, both
    /// in order.
    pub fn from_properties<F: Fn(&str) -> Option<String>>(
        script_path: &str,
        infos: &Vec<PropertyInfo>,
        constants: &Constants,
        compile: &F,
    ) -> (r: (ClassDescriptor, Vec<String>))
        requires
            compiler_ready(*compile),
        ensures
            r.0.script_path@ == script_path@,
            r.0.script_name@ == last_segment(script_path@),
            forall|errors: spec_fn(Seq<char>) -> Option<Seq<char>>|
                #[trigger] answers_compile(*compile, errors) ==> (
                    r.0.properties@.map_values(|p: PropertyDescriptor| p@),
                    string_views(r.1@),
                ) == describe_all(script_path@, infos@, constants.entries@, errors),
    {
        let mut properties: Vec<PropertyDescriptor> = Vec::new();
        let mut diagnostics: Vec<String> = Vec::new();
        let mut i: usize = 0;
        assert(infos@.take(0) =~= Seq::<PropertyInfo>::empty());
        assert(properties@.map_values(|p: PropertyDescriptor| p@) =~= Seq::<PropertyView>::empty());
        assert(string_views(diagnostics@) =~= Seq::<Seq<char>>::empty());
        while i < infos.len()
            invariant
                i <= infos.len(),
                compiler_ready(*compile),
                forall|errors: spec_fn(Seq<char>) -> Option<Seq<char>>|
                    #[trigger] answers_compile(*compile, errors) ==> (
                        properties@.map_values(|p: PropertyDescriptor| p@),
                        string_views(diagnostics@),
                    ) == describe_all(script_path@, infos@.take(i as int), constants.entries@, errors),
            decreases infos.len() - i,
        {
            assert(infos@.take(i + 1).drop_last() =~= infos@.take(i as int));
            assert(infos@.take(i + 1).last() == infos@[i as int]);
            let ghost ps = properties@.map_values(|p: PropertyDescriptor| p@);
            let ghost ds = string_views(diagnostics@);
            let (property, mut more) = describe_property(script_path, &infos[i], constants, compile);
            let ghost dm = string_views(more@);
            match property {
                Some(p) => {
                    properties.push(p);
                    assert(properties@.map_values(|p: PropertyDescriptor| p@) =~= ps.push(p@));
                },
                None => {},
            }
            diagnostics.append(&mut more);
            assert(string_views(diagnostics@) =~= ds + dm);
            i = i + 1;
        }
        assert(infos@.take(infos.len() as int) =~= infos@);
        let class = ClassDescriptor {
            script_path: string_of(script_path),
            script_name: get_script_name(script_path),
            properties,
        };
        (class, diagnostics)
    }

    /// The names of the properties that a hint string claims, in order: the
    /// properties whose values an edit session records when it begins.
    pub fn claimed_names(&self) -> (r: Vec<String>)
        ensures
            string_views(r@) == claimed_names_of(self.properties@.map_values(|p: PropertyDescriptor| p@)),
    {
        let ghost all = self.properties@.map_values(|p: PropertyDescriptor| p@);
        let mut names: Vec<String> = Vec::new();
        let mut i: usize = 0;
        assert(all.take(0) =~= Seq::<PropertyView>::empty());
        while i < self.properties.len()
            invariant
                i <= self.properties.len(),
                all == self.properties@.map_values(|p: PropertyDescriptor| p@),
                string_views(names@) == claimed_names_of(all.take(i as int)),
            decreases self.properties.len() - i,
        {
            assert(all.take(i + 1).drop_last() =~= all.take(i as int));
            assert(all.take(i + 1).last() == self.properties@[i as int]@);
            let ghost before = string_views(names@);
            if self.properties[i].claimed {
                names.push(self.properties[i].name.clone());
                assert(string_views(names@) =~= before.push(self.properties@[i as int].name@));
            }
            i = i + 1;
        }
        assert(all.take(self.properties.len() as int) =~= all);
        names
    }

    /// Whether a hint string claims any of the properties.
    pub fn is_naughty(&self) -> (r: bool)
        ensures
            r == exists|i: int| 0 <= i < self.properties.len() && (#[trigger] self.properties@[i])@.claimed,
    {
        let mut i: usize = 0;
        while i < self.properties.len()
            invariant
                i <= self.properties.len(),
                forall|j: int| 0 <= j < i ==> !(#[trigger] self.properties@[j])@.claimed,
            decreases self.properties.len() - i,
        {
            if self.properties[i].is_naughty() {
                return true;
            }
            i = i + 1;
        }
        false
    }

    /// The first property named `name`.
    pub fn find(&self, name: &str) -> (r: Option<&PropertyDescriptor>)
        ensures
            match r {
                Some(p) => exists|i: int|
                    0 <= i < self.properties.len() && self.properties@[i] == *p && p.name@ == name@
                        && forall|j: int| 0 <= j < i ==> (#[trigger] self.properties@[j]).name@ != name@,
                None => forall|j: int|
                    0 <= j < self.properties.len() ==> (#[trigger] self.properties@[j]).name@ != name@,
            },
    {
        let mut i: usize = 0;
        while i < self.properties.len()
            invariant
                i <= self.properties.len(),
                forall|j: int| 0 <= j < i ==> (#[trigger] self.properties@[j]).name@ != name@,
            decreases self.properties.len() - i,
        {
            if str_eq(self.properties[i].name.as_str(), name) {
                return Some(&self.properties[i]);
            }
            i = i + 1;
        }
        None
    }
}

proof fn lemma_add_attributes_keeps_the_property(
    state: (PropertyView, Seq<Seq<char>>),
    entries: Seq<(Seq<char>, Seq<char>)>,
    path: Seq<char>,
    constants: Seq<Constant>,
    errors: spec_fn(Seq<char>) -> Option<Seq<char>>,
)
    ensures
        ({
            let p = add_attributes(state, entries, path, constants, errors).0;
            &&& p.name == state.0.name
            &&& p.usage == state.0.usage
            &&& p.claimed == state.0.claimed
            &&& p.variant_type == state.0.variant_type
        }),
    decreases entries.len(),
{
    if entries.len() > 0 {
        lemma_add_attributes_keeps_the_property(state, entries.drop_last(), path, constants, errors);
    }
}

/// What the property list gives holds only properties that the editor shows,
/// in the order of the list, each under its own name; a property that no
/// hint string claims has no attributes.
pub proof fn lemma_described_properties_are_shown(
    path: Seq<char>,
    infos: Seq<PropertyInfo>,
    constants: Seq<Constant>,
    errors: spec_fn(Seq<char>) -> Option<Seq<char>>,
)
    ensures
        ({
            let ps = describe_all(path, infos, constants, errors).0;
            &&& ps.len() <= infos.len()
            &&& forall|k: int| 0 <= k < ps.len() ==> is_editor_usage(#[trigger] ps[k].usage)
            &&& forall|k: int|
                0 <= k < ps.len() && !(#[trigger] ps[k]).claimed ==> ps[k].decorators.len() == 0
                    && ps[k].drawer is None && ps[k].metas.len() == 0 && ps[k].validators.len() == 0
        }),
    decreases infos.len(),
{
    if infos.len() > 0 {
        lemma_described_properties_are_shown(path, infos.drop_last(), constants, errors);
        let info = infos.last();
        if is_editor_usage(info.usage) && info.hint == HintValue::NoHint && info.hint_text@.len() != 0 {
            let a = annotation_of(info.hint_text@, |k: Seq<char>| is_attribute_key(k));
            let unknown = unknown_key_diagnostics(path, info.name@, a.unknown_keys);
            lemma_add_attributes_keeps_the_property(
                (claimed_view(info, a), unknown),
                a.attributes,
                path,
                constants,
                errors,
            );
        }
    }
}

/// A property that the editor shows keeps its name, type and usage, whatever
/// its hint string holds.
pub proof fn lemma_description_keeps_the_info(
    path: Seq<char>,
    info: PropertyInfo,
    constants: Seq<Constant>,
    errors: spec_fn(Seq<char>) -> Option<Seq<char>>,
)
    ensures
        describe(path, info, constants, errors).0 is Some <==> is_editor_usage(info.usage),
        describe(path, info, constants, errors).0 matches Some(p) ==> p.name == info.name@ && p.usage
            == info.usage && p.variant_type == info.variant_type,
{
    if is_editor_usage(info.usage) && info.hint == HintValue::NoHint && info.hint_text@.len() != 0 {
        let a = annotation_of(info.hint_text@, |k: Seq<char>| is_attribute_key(k));
        let unknown = unknown_key_diagnostics(path, info.name@, a.unknown_keys);
        lemma_add_attributes_keeps_the_property((claimed_view(info, a), unknown), a.attributes, path, constants, errors);
    }
}

/// The drawer of a property of type `t` after the entries: the last entry
/// that reads as a drawer (its expression compiling), else `initial`.
pub open spec fn last_drawer(
    entries: Seq<(Seq<char>, Seq<char>)>,
    t: VariantType,
    constants: Seq<Constant>,
    errors: spec_fn(Seq<char>) -> Option<Seq<char>>,
    initial: Option<DrawerView>,
) -> Option<DrawerView>
    decreases entries.len(),
{
    if entries.len() == 0 {
        initial
    } else {
        match attribute_of(entries.last().0, entries.last().1, t, constants, errors) {
            Ok(AttributeView::Drawer(d)) => Some(d),
            _ => last_drawer(entries.drop_last(), t, constants, errors, initial),
        }
    }
}

/// A property keeps the last drawer that reads, its expression compiling; a
/// later drawer that fails to read or compile leaves the earlier one.
pub proof fn lemma_last_reading_drawer_is_kept(
    state: (PropertyView, Seq<Seq<char>>),
    entries: Seq<(Seq<char>, Seq<char>)>,
    path: Seq<char>,
    constants: Seq<Constant>,
    errors: spec_fn(Seq<char>) -> Option<Seq<char>>,
)
    ensures
        add_attributes(state, entries, path, constants, errors).0.drawer == last_drawer(
            entries,
            state.0.variant_type,
            constants,
            errors,
            state.0.drawer,
        ),
    decreases entries.len(),
{
    if entries.len() > 0 {
        lemma_last_reading_drawer_is_kept(state, entries.drop_last(), path, constants, errors);
        lemma_add_attributes_keeps_the_property(state, entries.drop_last(), path, constants, errors);
    }
}

} // verus!
