//! JSON objects as the wire format needs them: a flat list of named members,
//! each of which is `null`, a text, or something else. Reading and writing
//! JSON text is left to `serde_json`; what the members mean is decided here.

use vstd::prelude::*;

verus! {

/// What one member of a JSON object holds.
#[derive(Clone, Debug, PartialEq, Eq)]
pub enum MemberValue {
    /// The JSON literal `null`.
    Null,
    /// A JSON string, unescaped.
    Text(String),
    /// A number, a boolean, an array or an object.
    Other,
}

/// One named member of a JSON object.
#[derive(Clone, Debug, PartialEq, Eq)]
pub struct Member {
    pub name: String,
    pub value: MemberValue,
}

/// Mathematical model of a [`MemberValue`].
pub enum MemberValueView {
    Null,
    Text(Seq<char>),
    Other,
}

/// Mathematical model of a [`Member`].
pub struct MemberView {
    pub name: Seq<char>,
    pub value: MemberValueView,
}

impl View for MemberValue {
    type V = MemberValueView;

    open spec fn view(&self) -> MemberValueView {
        match self {
            MemberValue::Null => MemberValueView::Null,
            MemberValue::Text(s) => MemberValueView::Text(s@),
            MemberValue::Other => MemberValueView::Other,
        }
    }
}

impl View for Member {
    type V = MemberView;

    open spec fn view(&self) -> MemberView {
        MemberView { name: self.name@, value: self.value@ }
    }
}

/// The models of a list of members, in order.
pub open spec fn members_view(members: Seq<Member>) -> Seq<MemberView> {
    members.map_values(|m: Member| m@)
}

/// The members that `serde_json` reads from `text` when `text` is one JSON
/// object, in the order in which the object's distinct names first occur;
/// `None` when `text` is not JSON or its top-level value is not an object.
pub uninterp spec fn json_object_members(text: Seq<char>) -> Option<Seq<MemberView>>;

/// The compact JSON text that `serde_json` writes for an object with the
/// given members, a member being a name and either a text or `null`; `None`
/// when the writer reports an error.
pub uninterp spec fn json_object_text(entries: Seq<(Seq<char>, Option<Seq<char>>)>) -> Option<
    Seq<char>,
>;

/// The models of a list of entries to write, in order.
pub open spec fn entries_view(entries: Seq<(String, Option<String>)>) -> Seq<
    (Seq<char>, Option<Seq<char>>),
> {
    entries.map_values(
        |e: (String, Option<String>)|
            (
                e.0@,
                match e.1 {
                    Some(s) => Some(s@),
                    None => None,
                },
            ),
    )
}

/// The members that an object written from `entries` holds.
pub open spec fn entries_as_members(entries: Seq<(Seq<char>, Option<Seq<char>>)>) -> Seq<
    MemberView,
> {
    entries.map_values(
        |e: (Seq<char>, Option<Seq<char>>)|
            MemberView {
                name: e.0,
                value: match e.1 {
                    Some(s) => MemberValueView::Text(s),
                    None => MemberValueView::Null,
                },
            },
    )
}

/// No two entries carry the same name.
pub open spec fn distinct_names(entries: Seq<(Seq<char>, Option<Seq<char>>)>) -> bool {
    forall|i: int, j: int|
        0 <= i < j < entries.len() ==> (#[trigger] entries[i]).0 != (#[trigger] entries[j]).0
}

/// Parses `text` with `serde_json::from_str` into a `serde_json::Value` and,
/// when that value is an object, hands out its members one for one.
///
/// Trusted: the result is a function of `text` alone, named by
/// [`json_object_members`].
#[verifier::external_body]
pub(crate) fn parse_object(text: &str) -> (r: Option<Vec<Member>>)
    ensures
        match r {
            Some(members) => json_object_members(text@) == Some(members_view(members@)),
            None => json_object_members(text@) is None,
        },
{
    match serde_json::from_str::<serde_json::Value>(text) {
        Ok(serde_json::Value::Object(map)) => Some(map.into_iter().map(|(name, value)| {
            let value = match value {
                serde_json::Value::Null => MemberValue::Null,
                serde_json::Value::String(s) => MemberValue::Text(s),
                _ => MemberValue::Other,
            };
            Member { name, value }
        }).collect()),
        _ => None,
    }
}

/// Builds a `serde_json::Value` object from `entries`, in order, and writes
/// it with `serde_json::to_string`.
///
/// Trusted: the result is a function of `entries` alone, named by
/// [`json_object_text`]. And what `serde_json` writes for an object whose
/// names differ pairwise, it reads back as the same members in the same
/// order: its writer escapes `"`, `\` and the control characters and passes
/// every other character through, its reader undoes exactly that, and with
/// the feature `preserve_order` an object keeps its members in the order in
/// which they were put in.
#[verifier::external_body]
pub(crate) fn write_object(entries: &Vec<(String, Option<String>)>) -> (r: Option<String>)
    ensures
        match r {
            Some(text) => {
                &&& json_object_text(entries_view(entries@)) == Some(text@)
                &&& distinct_names(entries_view(entries@)) ==> json_object_members(text@) == Some(
                    entries_as_members(entries_view(entries@)),
                )
            },
            None => json_object_text(entries_view(entries@)) is None,
        },
{
    let mut map = serde_json::Map::new();
    for (name, value) in entries.iter() {
        let value = match value {
            Some(s) => serde_json::Value::String(s.clone()),
            None => serde_json::Value::Null,
        };
        map.insert(name.clone(), value);
    }
    serde_json::to_string(&serde_json::Value::Object(map)).ok()
}

/// The value of the first member of `members` that is called `name`.
pub open spec fn first_named(members: Seq<MemberView>, name: Seq<char>) -> Option<MemberValueView>
    decreases members.len(),
{
    if members.len() == 0 {
        None
    } else if members.first().name == name {
        Some(members.first().value)
    } else {
        first_named(members.drop_first(), name)
    }
}

/// Looks up the first member of `members` that is called `name`.
pub fn find_member<'a>(members: &'a Vec<Member>, name: &str) -> (r: Option<&'a MemberValue>)
    ensures
        match r {
            Some(value) => first_named(members_view(members@), name@) == Some(value@),
            None => first_named(members_view(members@), name@) is None,
        },
{
    let wanted = name.to_string();
    let ghost all = members_view(members@);
    assert(all.skip(0) =~= all);
    let mut i: usize = 0;
    while i < members.len()
        invariant
            i <= members.len(),
            wanted@ == name@,
            all == members_view(members@),
            first_named(all, name@) == first_named(all.skip(i as int), name@),
        decreases members.len() - i,
    {
        let ghost rest = all.skip(i as int);
        assert(rest.first() == members@[i as int]@);
        if members[i].name == wanted {
            return Some(&members[i].value);
        }
        assert(rest.drop_first() =~= all.skip(i + 1));
        i += 1;
    }
    None
}

} // verus!
