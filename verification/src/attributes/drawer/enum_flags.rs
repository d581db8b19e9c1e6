//! `enum_flags`: an int property edited as a set of flags, one per member of
//! an enum that the script declares.

use vstd::prelude::*;
use vstd::string::*;

use crate::annotation::join;
use crate::attributes::ParseContext;
use crate::constants::{Constant, ConstantValue, Constants, DictionaryEntry, MemberValue};
use crate::text::{
    concat3, decimal, format_i64, is_identifier, is_identifier_chars, push_char, string_of, trim,
    trim_str,
};
use crate::variant_type::VariantType;

verus! {

pub const KEY: &'static str = "enum_flags";

/// The flags editor's hint text, `NAME:value` for every member.
pub struct EnumFlags {
    hint_text: String,
}

impl View for EnumFlags {
    type V = Seq<char>;

    closed spec fn view(&self) -> Seq<char> {
        self.hint_text@
    }
}

/// The position of the first member from `j` on that is not an int.
pub open spec fn first_non_int(entries: Seq<DictionaryEntry>, j: int) -> Option<int>
    decreases entries.len() - j,
{
    if j < 0 || j >= entries.len() {
        None
    } else if entries[j].value is Other {
        Some(j)
    } else {
        first_non_int(entries, j + 1)
    }
}

/// The members of an enum whose members are all ints.
pub open spec fn member_pairs(entries: Seq<DictionaryEntry>) -> Seq<(Seq<char>, int)> {
    entries.map_values(
        |e: DictionaryEntry|
            (
                e.key@,
                match e.value {
                    MemberValue::Int(v) => v as int,
                    MemberValue::Other(_) => 0,
                },
            ),
    )
}

/// The members of the enum named `name` among `constants`, or why there are none.
pub open spec fn members_of(name: Seq<char>, constants: Seq<Constant>) -> Result<
    Seq<(Seq<char>, int)>,
    Seq<char>,
> {
    match crate::constants::find_constant(constants, name, 0) {
        None => Err("'"@ + name + "' is not declared in the script or its base scripts"@),
        Some(i) => match constants[i].value {
            ConstantValue::Other(kind_name) => Err(
                "'"@ + name + "' is "@ + kind_name@ + ", not an enum"@,
            ),
            ConstantValue::Dictionary(entries) => match first_non_int(entries@, 0) {
                Some(j) => Err(
                    "'"@ + name + "."@ + entries@[j].key@ + "' is "@ + match entries@[j].value {
                        MemberValue::Other(t) => t@,
                        MemberValue::Int(_) => Seq::empty(),
                    } + ", not an int"@,
                ),
                None => if entries@.len() == 0 {
                    Err("'"@ + name + "' has no members"@)
                } else {
                    Ok(member_pairs(entries@))
                },
            },
        },
    }
}

/// `NAME:value` for one member.
pub open spec fn member_text(m: (Seq<char>, int)) -> Seq<char> {
    m.0 + seq![':'] + decimal(m.1)
}

/// The hint text of a flags editor: `NAME:value` for every member, separated
/// by commas, in declaration order.
pub open spec fn hint_text_of(members: Seq<(Seq<char>, int)>) -> Seq<char> {
    join(members.map_values(|m: (Seq<char>, int)| member_text(m)), ',')
}

/// What `enum_flags` reads from `raw_args` on a property of type `t`.
pub open spec fn enum_flags_of(raw_args: Seq<char>, t: VariantType, constants: Seq<Constant>) -> Result<
    Seq<char>,
    Seq<char>,
> {
    let name = trim(raw_args);
    if name.len() == 0 {
        Err("expected an enum name"@)
    } else if !is_identifier_chars(name) {
        Err("'"@ + name + "' is not an enum name"@)
    } else if t != VariantType::Int {
        Err("can be used only on int properties"@)
    } else {
        match members_of(name, constants) {
            Ok(members) => Ok(hint_text_of(members)),
            Err(m) => Err(m),
        }
    }
}

/// The views of members as they are returned.
pub open spec fn members_view(v: Seq<(String, i64)>) -> Seq<(Seq<char>, int)> {
    v.map_values(|m: (String, i64)| (m.0@, m.1 as int))
}

/// The members of the enum named `name`, with their values.
pub fn get_members(name: &str, constants: &Constants) -> (r: Result<Vec<(String, i64)>, String>)
    ensures
        match r {
            Ok(v) => members_of(name@, constants.entries@) == Ok::<
                Seq<(Seq<char>, int)>,
                Seq<char>,
            >(members_view(v@)),
            Err(m) => members_of(name@, constants.entries@) == Err::<
                Seq<(Seq<char>, int)>,
                Seq<char>,
            >(m@),
        },
{
    let index = match constants.get(name) {
        Some(i) => i,
        None => {
            return Err(
                concat3("'", name, "' is not declared in the script or its base scripts"),
            );
        },
    };
    let entries = match &constants.entries[index].value {
        ConstantValue::Other(kind_name) => {
            let mut m = concat3("'", name, "' is ");
            m.append(kind_name.as_str());
            m.append(", not an enum");
            return Err(m);
        },
        ConstantValue::Dictionary(entries) => entries,
    };
    let mut members: Vec<(String, i64)> = Vec::new();
    let mut j: usize = 0;
    while j < entries.len()
        invariant
            j <= entries.len(),
            crate::constants::find_constant(constants.entries@, name@, 0) == Some(index as int),
            constants.entries@[index as int].value == ConstantValue::Dictionary(*entries),
            first_non_int(entries@, 0) == first_non_int(entries@, j as int),
            members_view(members@) == member_pairs(entries@.take(j as int)),
        decreases entries.len() - j,
    {
        let ghost before = members@;
        match &entries[j].value {
            MemberValue::Int(v) => {
                members.push((entries[j].key.clone(), *v));
                assert(members_view(members@) =~= members_view(before) + seq![
                    (entries@[j as int].key@, *v as int),
                ]);
                assert(member_pairs(entries@.take(j + 1)) =~= member_pairs(entries@.take(j as int))
                    + seq![(entries@[j as int].key@, *v as int)]);
            },
            MemberValue::Other(kind_name) => {
                let mut m = concat3("'", name, ".");
                m.append(entries[j].key.as_str());
                m.append("' is ");
                m.append(kind_name.as_str());
                m.append(", not an int");
                return Err(m);
            },
        }
        j = j + 1;
    }
    assert(entries@.take(entries.len() as int) =~= entries@);
    if members.len() == 0 {
        return Err(concat3("'", name, "' has no members"));
    }
    Ok(members)
}

/// The hint text for the members: `NAME:value` for each, separated by commas.
pub fn build_hint_text(members: &Vec<(String, i64)>) -> (r: String)
    ensures
        r@ == hint_text_of(members_view(members@)),
{
    let ghost texts = members_view(members@).map_values(|m: (Seq<char>, int)| member_text(m));
    let mut out = String::new();
    let mut i: usize = 0;
    while i < members.len()
        invariant
            i <= members.len(),
            texts == members_view(members@).map_values(|m: (Seq<char>, int)| member_text(m)),
            texts.len() == members.len(),
            out@ == join(texts.take(i as int), ','),
        decreases members.len() - i,
    {
        if i > 0 {
            push_char(&mut out, ',');
        }
        out.append(members[i].0.as_str());
        push_char(&mut out, ':');
        let number = format_i64(members[i].1);
        out.append(number.as_str());
        assert(texts.take(i + 1).drop_last() =~= texts.take(i as int));
        assert(texts[i as int] == member_text(members_view(members@)[i as int]));
        i = i + 1;
    }
    assert(texts.take(members.len() as int) =~= texts);
    out
}

impl EnumFlags {
    /// Reads the name of the enum whose members the flags are.
    pub fn parse(raw_args: &str, context: &ParseContext) -> (r: Result<Self, String>)
        ensures
            match r {
                Ok(f) => enum_flags_of(raw_args@, context.variant_type, context.constants.entries@)
                    == Ok::<Seq<char>, Seq<char>>(f@),
                Err(m) => enum_flags_of(raw_args@, context.variant_type, context.constants.entries@)
                    == Err::<Seq<char>, Seq<char>>(m@),
            },
    {
        let name = trim_str(raw_args);
        if name.unicode_len() == 0 {
            return Err(string_of("expected an enum name"));
        }
        if !is_identifier(name) {
            return Err(concat3("'", name, "' is not an enum name"));
        }
        if context.variant_type != VariantType::Int {
            return Err(string_of("can be used only on int properties"));
        }
        let members = match get_members(name, context.constants) {
            Ok(m) => m,
            Err(m) => {
                return Err(m);
            },
        };
        Ok(EnumFlags { hint_text: build_hint_text(&members) })
    }

    /// The hint text of the flags editor.
    pub fn get_hint_text(&self) -> (r: &str)
        ensures
            r@ == self@,
    {
        self.hint_text.as_str()
    }
}

} // verus!
