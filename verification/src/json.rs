//! JSON objects as flat lists of scalar members.
//!
//! Message payloads arrive as JSON text.  The text is parsed by `serde_json`;
//! everything after the parse works on the plain member list defined here.

use vstd::prelude::*;

verus! {

/// What a member of a JSON object holds, as far as payload decoding reads it.
#[derive(Debug, PartialEq, Eq)]
pub enum Scalar {
    /// The JSON value `null`.
    Null,
    /// A JSON string.
    Text(String),
    /// A JSON number that `serde_json` reads as an unsigned 64-bit integer.
    Unsigned(u64),
    /// Any other JSON value: a boolean, any other number, an array or an
    /// object.
    Other,
}

/// The mathematical value of a [`Scalar`].
pub enum ScalarView {
    Null,
    Text(Seq<char>),
    Unsigned(u64),
    Other,
}

impl View for Scalar {
    type V = ScalarView;

    open spec fn view(&self) -> ScalarView {
        match self {
            Scalar::Null => ScalarView::Null,
            Scalar::Text(s) => ScalarView::Text(s@),
            Scalar::Unsigned(n) => ScalarView::Unsigned(*n),
            Scalar::Other => ScalarView::Other,
        }
    }
}

/// One member of a JSON object: its name and what it holds.
#[derive(Debug, PartialEq, Eq)]
pub struct Member {
    pub name: String,
    pub value: Scalar,
}

/// The mathematical value of a [`Member`].
pub struct MemberView {
    pub name: Seq<char>,
    pub value: ScalarView,
}

impl View for Member {
    type V = MemberView;

    open spec fn view(&self) -> MemberView {
        MemberView { name: self.name@, value: self.value@ }
    }
}

/// The member list of a vector of members.
pub open spec fn members_view(members: Seq<Member>) -> Seq<MemberView> {
    members.map_values(|m: Member| m@)
}

/// `serde_json::Error`, the reason why a text was not accepted.  It is
/// carried through unopened.
#[verifier::external_type_specification]
#[verifier::external_body]
pub struct ExJsonError(serde_json::Error);

/// The members of the JSON object that `text` spells, in the order in which
/// `serde_json` hands them out, or `None` where `serde_json` does not accept
/// `text` as one JSON object.
pub uninterp spec fn json_object(text: Seq<char>) -> Option<Seq<MemberView>>;

/// Parses `text` with `serde_json::from_str` into a `serde_json::Map` and
/// hands out its members as plain values.
///
/// Trusted: the result is a function of `text` alone, named [`json_object`];
/// the parse fails exactly where that name is `None`.
#[verifier::external_body]
pub(crate) fn parse_object(text: &str) -> (r: Result<Vec<Member>, serde_json::Error>)
    ensures
        match r {
            Ok(members) => json_object(text@) == Some(members_view(members@)),
            Err(_) => json_object(text@) is None,
        },
{
    let object = serde_json::from_str::<serde_json::Map<String, serde_json::Value>>(text)?;
    Ok(object.into_iter().map(|(name, value)| Member { name, value: match value {
        serde_json::Value::Null => Scalar::Null,
        serde_json::Value::String(s) => Scalar::Text(s),
        serde_json::Value::Number(n) => n.as_u64().map_or(Scalar::Other, Scalar::Unsigned),
        serde_json::Value::Bool(_) => Scalar::Other,
        serde_json::Value::Array(_) => Scalar::Other,
        serde_json::Value::Object(_) => Scalar::Other,
    } }).collect())
}

/// What the first member named `key` holds, or `None` where no member has
/// that name.
pub open spec fn field_of(members: Seq<MemberView>, key: Seq<char>) -> Option<ScalarView>
    decreases members.len(),
{
    if members.len() == 0 {
        None
    } else if members[0].name == key {
        Some(members[0].value)
    } else {
        field_of(members.drop_first(), key)
    }
}

/// Looks up the first member named `key`.
pub fn find_field<'a>(members: &'a Vec<Member>, key: &str) -> (r: Option<&'a Scalar>)
    ensures
        match r {
            Some(value) => field_of(members_view(members@), key@) == Some(value@),
            None => field_of(members_view(members@), key@) is None,
        },
{
    let wanted = key.to_owned();
    let mut i: usize = 0;
    assert(members_view(members@).subrange(0, members.len() as int) =~= members_view(members@));
    while i < members.len()
        invariant
            i <= members.len(),
            wanted@ == key@,
            field_of(members_view(members@), key@) == field_of(
                members_view(members@).subrange(i as int, members.len() as int),
                key@,
            ),
        decreases members.len() - i,
    {
        let ghost rest = members_view(members@).subrange(i as int, members.len() as int);
        assert(rest.drop_first() =~= members_view(members@).subrange(
            i as int + 1,
            members.len() as int,
        ));
        if members[i].name == wanted {
            return Some(&members[i].value);
        }
        i += 1;
    }
    None
}

} // verus!
