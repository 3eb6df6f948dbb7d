//! Reading the members of a JSON object. The document is parsed by
//! `serde_json`; finding a member and judging its type is done here.

use vstd::prelude::*;

verus! {

/// One member of a JSON object: its name, and its text when its value is a
/// JSON string. A member with any other kind of value has no text.
#[derive(Debug, Clone, PartialEq, Eq)]
pub struct Member {
    pub name: String,
    pub text: Option<String>,
}

impl View for Member {
    type V = (Seq<char>, Option<Seq<char>>);

    open spec fn view(&self) -> (Seq<char>, Option<Seq<char>>) {
        (
            self.name@,
            match self.text {
                Some(text) => Some(text@),
                None => None,
            },
        )
    }
}

/// The members of a list, each by its view.
pub open spec fn members_view(members: Seq<Member>) -> Seq<(Seq<char>, Option<Seq<char>>)> {
    members.map_values(|m: Member| m@)
}

#[verifier::external_type_specification]
#[verifier::external_body]
pub struct ExJsonError(serde_json::Error);

/// What `serde_json` reads from `body`: the members of the object that the
/// bytes spell, or `None` where they are not one JSON object.
pub uninterp spec fn json_members(body: Seq<u8>) -> Option<Seq<(Seq<char>, Option<Seq<char>>)>>;

/// Parses `body` with `serde_json::from_slice` into a `serde_json::Map` and
/// hands out its members in the order in which the map yields them.
///
/// Not proved: that the members returned are those that `serde_json` found,
/// and that it fails exactly where [`json_members`] is `None`. Nothing is
/// claimed about which bytes parse.
#[verifier::external_body]
pub(crate) fn parse_members(body: &[u8]) -> (r: Result<Vec<Member>, serde_json::Error>)
    ensures
        match r {
            Ok(members) => json_members(body@) == Some(members_view(members@)),
            Err(_) => json_members(body@) is None,
        },
{
    match serde_json::from_slice::<serde_json::Map<String, serde_json::Value>>(body) {
        Ok(map) => Ok(
            map.into_iter().map(
                |(name, value)|
                    Member {
                        name,
                        text: match value {
                            serde_json::Value::String(text) => Some(text),
                            _ => None,
                        },
                    },
            ).collect(),
        ),
        Err(e) => Err(e),
    }
}

/// The text of the first member called `name`: `None` where there is no such
/// member or where its value is not a string.
pub open spec fn text_member(
    members: Seq<(Seq<char>, Option<Seq<char>>)>,
    name: Seq<char>,
) -> Option<Seq<char>>
    decreases members.len(),
{
    if members.len() == 0 {
        None
    } else if members[0].0 == name {
        members[0].1
    } else {
        text_member(members.drop_first(), name)
    }
}

/// Looks up the string member called `name`.
pub fn find_text<'a>(members: &'a Vec<Member>, name: &str) -> (r: Option<&'a String>)
    ensures
        match r {
            Some(text) => text_member(members_view(members@), name@) == Some(text@),
            None => text_member(members_view(members@), name@) is None,
        },
{
    let wanted = name.to_owned();
    let ghost all = members_view(members@);
    let mut i: usize = 0;
    assert(all.skip(0) =~= all);
    while i < members.len()
        invariant
            i <= members.len(),
            wanted@ == name@,
            all == members_view(members@),
            text_member(all, name@) == text_member(all.skip(i as int), name@),
        decreases members.len() - i,
    {
        let ghost rest = all.skip(i as int);
        assert(rest[0] == members@[i as int]@);
        assert(rest.drop_first() =~= all.skip(i + 1));
        if members[i].name == wanted {
            return match &members[i].text {
                Some(text) => Some(text),
                None => None,
            };
        }
        i += 1;
    }
    None
}

} // verus!
