//! Uplinks: the ways by which messages from outside reach a capsule.

use vstd::prelude::*;

use crate::text::{
    ascii_lowered, chars_of, concat2, lemma_utf8_len, lower, str_eq, utf8_len,
};
use crate::uuids::{parse_uuid, uuid_value};

verus! {

/// How many bytes the id of an uplink may have.
pub const MAX_ID_BYTES: usize = 64;

/// Why an operation was refused or failed.
#[derive(Debug, PartialEq, Eq)]
pub enum ErrorCode {
    CapabilityDenied,
    InvalidInput,
    Quota,
    UnknownUplink,
    Unknown(String),
}

/// What an uplink is for.
#[derive(Debug, Clone, Copy, PartialEq, Eq, Structural)]
pub enum UplinkProfile {
    Chat,
    Interactive,
    Notify,
    Bridge,
}

/// A registered uplink.
pub struct UplinkDescriptor {
    /// Its id as one number.
    pub id: u128,
    pub name: String,
    pub platform: String,
    pub profile: UplinkProfile,
}

/// The uplinks of one capsule.
pub struct Uplinks {
    pub registered: Vec<UplinkDescriptor>,
    /// How many there may be.
    pub limit: usize,
}

/// A message from outside.
pub struct InboundMessage {
    pub uplink: u128,
    pub platform: String,
    pub platform_user_id: String,
    pub content: String,
}

/// The character is white space: it has the Unicode property `White_Space`.
pub open spec fn white(c: char) -> bool {
    ||| '\u{9}' <= c && c <= '\u{d}'
    ||| c == ' '
    ||| c == '\u{85}'
    ||| c == '\u{a0}'
    ||| c == '\u{1680}'
    ||| '\u{2000}' <= c && c <= '\u{200a}'
    ||| c == '\u{2028}'
    ||| c == '\u{2029}'
    ||| c == '\u{202f}'
    ||| c == '\u{205f}'
    ||| c == '\u{3000}'
}

/// Whether the character is white space.
pub fn is_white(c: char) -> (r: bool)
    ensures
        r == white(c),
{
    ('\u{9}' <= c && c <= '\u{d}') || c == ' ' || c == '\u{85}' || c == '\u{a0}' || c == '\u{1680}'
        || ('\u{2000}' <= c && c <= '\u{200a}') || c == '\u{2028}' || c == '\u{2029}' || c == '\u{202f}'
        || c == '\u{205f}' || c == '\u{3000}'
}

/// The text from its first character on that is not white space.
pub open spec fn trimmed_start(text: Seq<char>) -> Seq<char>
    decreases text.len(),
{
    if text.len() > 0 && white(text.first()) {
        trimmed_start(text.drop_first())
    } else {
        text
    }
}

/// The text up to its last character that is not white space.
pub open spec fn trimmed_end(text: Seq<char>) -> Seq<char>
    decreases text.len(),
{
    if text.len() > 0 && white(text.last()) {
        trimmed_end(text.drop_last())
    } else {
        text
    }
}

/// The text without the white space at both its ends.
pub open spec fn trimmed(text: Seq<char>) -> Seq<char> {
    trimmed_end(trimmed_start(text))
}

/// The text without the white space at both its ends.
fn trim(text: &str) -> (r: String)
    ensures
        r@ == trimmed(text@),
{
    let chars = chars_of(text);
    let mut start: usize = 0;
    assert(text@.skip(0) =~= text@);
    while start < chars.len() && is_white(chars[start])
        invariant
            start <= chars@.len(),
            chars@ == text@,
            trimmed_start(text@.skip(start as int)) == trimmed_start(text@),
        decreases chars.len() - start,
    {
        assert(text@.skip(start as int).drop_first() =~= text@.skip(start + 1));
        start += 1;
    }
    let ghost rest = text@.skip(start as int);
    assert(rest == trimmed_start(text@));
    let mut end: usize = chars.len();
    assert(text@.subrange(start as int, end as int) =~= rest);
    while start < end && is_white(chars[end - 1])
        invariant
            start <= end <= chars@.len(),
            chars@ == text@,
            trimmed_end(text@.subrange(start as int, end as int)) == trimmed_end(rest),
        decreases end,
    {
        assert(text@.subrange(start as int, end as int).drop_last() =~= text@.subrange(
            start as int,
            end - 1,
        ));
        end -= 1;
    }
    let ghost kept = text@.subrange(start as int, end as int);
    assert(kept == trimmed_end(rest));
    let mut out: String = String::new();
    let mut i: usize = start;
    while i < end
        invariant
            start <= i <= end <= chars@.len(),
            chars@ == text@,
            out@ == text@.subrange(start as int, i as int),
        decreases end - i,
    {
        out.push(chars[i]);
        assert(out@ =~= text@.subrange(start as int, i + 1));
        i += 1;
    }
    out
}

/// An uplink of this name and platform is there.
pub open spec fn known(list: Seq<UplinkDescriptor>, name: Seq<char>, platform: Seq<char>) -> bool {
    exists|i: int|
        0 <= i < list.len() && (#[trigger] list[i]).name@ == name && list[i].platform@ == platform
}

/// The text in lower case.
fn to_ascii_lowercase(text: &str) -> (r: String)
    ensures
        r@ == ascii_lowered(text@),
{
    let chars = chars_of(text);
    let mut out: String = String::new();
    let mut i: usize = 0;
    while i < chars.len()
        invariant
            i <= chars@.len(),
            chars@ == text@,
            out@ == ascii_lowered(text@).take(i as int),
        decreases chars.len() - i,
    {
        out.push(lower(chars[i]));
        assert(out@ =~= ascii_lowered(text@).take(i + 1));
        i += 1;
    }
    assert(out@ =~= ascii_lowered(text@));
    out
}

impl Uplinks {
    /// There are none.
    pub fn new(limit: usize) -> (uplinks: Self)
        ensures
            uplinks.registered@.len() == 0,
            uplinks.limit == limit,
    {
        Uplinks { registered: Vec::new(), limit }
    }

    /// Registers an uplink, unless there are as many as there may be, or one of its name is on
    /// its platform already.
    pub fn register_uplink(&mut self, descriptor: UplinkDescriptor) -> (r: Result<(), String>)
        ensures
            final(self).limit == old(self).limit,
            if old(self).registered@.len() >= old(self).limit {
                &&& r is Err
                &&& r->Err_0@ == "uplink registration limit reached"@
                &&& *final(self) == *old(self)
            } else if known(old(self).registered@, descriptor.name@, descriptor.platform@) {
                &&& r is Err
                &&& r->Err_0@ == "duplicate uplink name and platform"@
                &&& *final(self) == *old(self)
            } else {
                &&& r is Ok
                &&& final(self).registered@ == old(self).registered@.push(descriptor)
            },
    {
        if self.registered.len() >= self.limit {
            return Err("uplink registration limit reached".to_owned());
        }
        if self.has(descriptor.name.as_str(), descriptor.platform.as_str()) {
            return Err("duplicate uplink name and platform".to_owned());
        }
        self.registered.push(descriptor);
        Ok(())
    }

    /// Whether an uplink of this name is on this platform.
    fn has(&self, name: &str, platform: &str) -> (found: bool)
        ensures
            found == known(self.registered@, name@, platform@),
    {
        let mut i: usize = 0;
        while i < self.registered.len()
            invariant
                i <= self.registered@.len(),
                forall|k: int|
                    0 <= k < i ==> !((#[trigger] self.registered@[k]).name@ == name@
                        && self.registered@[k].platform@ == platform@),
            decreases self.registered.len() - i,
        {
            if str_eq(self.registered[i].name.as_str(), name) && str_eq(
                self.registered[i].platform.as_str(),
                platform,
            ) {
                assert(self.registered@[i as int].name@ == name@);
                return true;
            }
            i += 1;
        }
        false
    }

    /// Registers an uplink on behalf of a capsule. White space around the name of its platform
    /// does not count, nor does the case of its letters. `gate_refused` is what the security gate
    /// said, `source` is whether the capsule can be named as a source, and `id` is the fresh id of
    /// the uplink.
    pub fn uplink_register(
        &mut self,
        has_uplink_capability: bool,
        name: &str,
        platform: &str,
        profile: UplinkProfile,
        gate_refused: bool,
        source: &Result<(), String>,
        id: u128,
    ) -> (r: Result<u128, ErrorCode>)
        ensures
            final(self).limit == old(self).limit,
            ({
                let place = ascii_lowered(trimmed(platform@));
                if !has_uplink_capability {
                    r == Err::<u128, ErrorCode>(ErrorCode::CapabilityDenied) && *final(self)
                        == *old(self)
                } else if trimmed(name@).len() == 0 || place.len() == 0 {
                    r == Err::<u128, ErrorCode>(ErrorCode::InvalidInput) && *final(self) == *old(
                        self,
                    )
                } else if gate_refused {
                    r == Err::<u128, ErrorCode>(ErrorCode::CapabilityDenied) && *final(self)
                        == *old(self)
                } else if *source is Err {
                    &&& r is Err
                    &&& r->Err_0 is Unknown
                    &&& r->Err_0->Unknown_0@ == "uplink source: "@ + source->Err_0@
                    &&& *final(self) == *old(self)
                } else if old(self).registered@.len() >= old(self).limit {
                    r == Err::<u128, ErrorCode>(ErrorCode::Quota) && *final(self) == *old(self)
                } else if known(old(self).registered@, name@, place) {
                    r == Err::<u128, ErrorCode>(ErrorCode::InvalidInput) && *final(self) == *old(
                        self,
                    )
                } else {
                    &&& r == Ok::<u128, ErrorCode>(id)
                    &&& final(self).registered@.len() == old(self).registered@.len() + 1
                    &&& final(self).registered@.drop_last() == old(self).registered@
                    &&& final(self).registered@.last().id == id
                    &&& final(self).registered@.last().name@ == name@
                    &&& final(self).registered@.last().platform@ == place
                    &&& final(self).registered@.last().profile == profile
                }
            }),
    {
        if !has_uplink_capability {
            return Err(ErrorCode::CapabilityDenied);
        }
        let place = to_ascii_lowercase(trim(platform).as_str());
        let bare = trim(name);
        proof {
            reveal_strlit("");
            if bare@.len() == 0 {
                assert(bare@ =~= ""@);
            }
            if place@.len() == 0 {
                assert(place@ =~= ""@);
            }
        }
        if str_eq(bare.as_str(), "") || str_eq(place.as_str(), "") {
            return Err(ErrorCode::InvalidInput);
        }
        if gate_refused {
            return Err(ErrorCode::CapabilityDenied);
        }
        match source {
            Err(text) => {
                return Err(ErrorCode::Unknown(concat2("uplink source: ", text.as_str())));
            },
            Ok(()) => {},
        }
        let full = self.registered.len() >= self.limit;
        let descriptor = UplinkDescriptor { id, name: name.to_owned(), platform: place, profile };
        match self.register_uplink(descriptor) {
            Ok(()) => {
                assert(self.registered@.drop_last() =~= old(self).registered@);
                Ok(id)
            },
            Err(_) => {
                if full {
                    Err(ErrorCode::Quota)
                } else {
                    Err(ErrorCode::InvalidInput)
                }
            },
        }
    }

    /// The message to be handed to the capsule's inbox, or why there is none. `id` is the
    /// identity that the id of the uplink spells.
    pub fn inbound_for(
        &self,
        id: u128,
        has_inbox: bool,
        platform_user_id: &str,
        content: &str,
    ) -> (r: Result<InboundMessage, ErrorCode>)
        ensures
            match r {
                Ok(message) => {
                    &&& has_inbox
                    &&& exists|i: int| #[trigger]
                        first_with_id(self.registered@, id, i) && message.platform@
                            == self.registered@[i].platform@
                    &&& message.uplink == id
                    &&& message.platform_user_id@ == platform_user_id@
                    &&& message.content@ == content@
                },
                Err(code) => if exists|i: int| first_with_id(self.registered@, id, i) {
                    code == ErrorCode::Quota && !has_inbox
                } else {
                    code == ErrorCode::UnknownUplink
                },
            },
            fails_for_room_alone(self.registered@, id, has_inbox, r),
    {
        let mut i: usize = 0;
        while i < self.registered.len()
            invariant
                i <= self.registered@.len(),
                forall|k: int| 0 <= k < i ==> (#[trigger] self.registered@[k]).id != id,
            decreases self.registered.len() - i,
        {
            if self.registered[i].id == id {
                assert(first_with_id(self.registered@, id, i as int));
                if !has_inbox {
                    return Err(ErrorCode::Quota);
                }
                return Ok(
                    InboundMessage {
                        uplink: id,
                        platform: self.registered[i].platform.clone(),
                        platform_user_id: platform_user_id.to_owned(),
                        content: content.to_owned(),
                    },
                );
            }
            i += 1;
        }
        Err(ErrorCode::UnknownUplink)
    }

    /// The message that a send comes to, or why it comes to none.
    pub fn uplink_send(
        &self,
        has_uplink_capability: bool,
        uplink_id: &str,
        has_inbox: bool,
        platform_user_id: &str,
        content: &str,
    ) -> (r: Result<InboundMessage, ErrorCode>)
        ensures
            if !has_uplink_capability {
                r == Err::<InboundMessage, ErrorCode>(ErrorCode::CapabilityDenied)
            } else if utf8_len(uplink_id@) > MAX_ID_BYTES || uuid_value(uplink_id@) is None {
                r == Err::<InboundMessage, ErrorCode>(ErrorCode::InvalidInput)
            } else {
                let id = uuid_value(uplink_id@)->Some_0;
                match r {
                    Ok(message) => {
                        &&& has_inbox
                        &&& exists|i: int| #[trigger]
                            first_with_id(self.registered@, id, i) && message.platform@
                                == self.registered@[i].platform@
                        &&& message.uplink == id
                        &&& message.platform_user_id@ == platform_user_id@
                        &&& message.content@ == content@
                    },
                    Err(code) => if exists|i: int| first_with_id(self.registered@, id, i) {
                        code == ErrorCode::Quota && !has_inbox
                    } else {
                        code == ErrorCode::UnknownUplink
                    },
                }
            },
    {
        if !has_uplink_capability {
            return Err(ErrorCode::CapabilityDenied);
        }
        proof {
            lemma_utf8_len(uplink_id@);
        }
        if uplink_id.as_bytes().len() > MAX_ID_BYTES {
            return Err(ErrorCode::InvalidInput);
        }
        match parse_uuid(uplink_id) {
            None => Err(ErrorCode::InvalidInput),
            Some(id) => self.inbound_for(id, has_inbox, platform_user_id, content),
        }
    }
}

/// Where an uplink has the number, nothing is in the way of a message to it but a missing inbox.
pub open spec fn fails_for_room_alone(
    list: Seq<UplinkDescriptor>,
    id: u128,
    has_inbox: bool,
    r: Result<InboundMessage, ErrorCode>,
) -> bool {
    forall|i: int| #[trigger]
        first_with_id(list, id, i) && r is Err ==> r->Err_0 == ErrorCode::Quota && !has_inbox
}

/// The uplink at `i` is the first with this id.
pub open spec fn first_with_id(list: Seq<UplinkDescriptor>, id: u128, i: int) -> bool {
    &&& 0 <= i < list.len()
    &&& list[i].id == id
    &&& forall|k: int| 0 <= k < i ==> (#[trigger] list[k]).id != id
}

/// Whether a message was taken. One that nobody takes is dropped, which is no error.
pub fn send_result(taken: bool) -> (r: Result<bool, ErrorCode>)
    ensures
        r == Ok::<bool, ErrorCode>(taken),
{
    Ok(taken)
}

/// No two uplinks of a capsule have the same name on the same platform, and there are never more
/// than there may be: registering keeps both.
pub proof fn law_uplinks_stay_distinct(
    list: Seq<UplinkDescriptor>,
    descriptor: UplinkDescriptor,
    limit: int,
)
    requires
        distinct_uplinks(list),
        list.len() < limit,
        !known(list, descriptor.name@, descriptor.platform@),
    ensures
        distinct_uplinks(list.push(descriptor)),
        list.push(descriptor).len() <= limit,
{
    let more = list.push(descriptor);
    assert forall|i: int, j: int| 0 <= i < j < more.len() implies !((#[trigger] more[i]).name@
        == (#[trigger] more[j]).name@ && more[i].platform@ == more[j].platform@) by {
        assert(more[i] == list[i]);
        if j < list.len() {
            assert(more[j] == list[j]);
        } else {
            assert(!(list[i].name@ == descriptor.name@ && list[i].platform@
                == descriptor.platform@));
        }
    }
}

/// No two uplinks have the same name on the same platform.
pub open spec fn distinct_uplinks(list: Seq<UplinkDescriptor>) -> bool {
    forall|i: int, j: int|
        0 <= i < j < list.len() ==> !((#[trigger] list[i]).name@ == (#[trigger] list[j]).name@
            && list[i].platform@ == list[j].platform@)
}

} // verus!
