//! Helpers at the protocol edge whose decisions are pure: mention
//! detection, the contact-list check, and the bech32 form of a public key.

use vstd::prelude::*;
use vstd::string::StringSliceAdditionalSpecFns;
use vstd::string::StrSliceExecFns;
use vstd::utf8::encode_utf8;
use crate::text;

verus! {

/// What the protocol library returns as the bech32 form of a hex-encoded
/// public key: a pure encoding of the hex characters alone.
pub uninterp spec fn npub_of(hex: Seq<char>) -> Seq<char>;

/// Relies on nostr_sdk's PublicKey::from_hex and ToBech32::to_bech32:
/// parsing a hex public key and re-encoding it in bech32 depends on the hex
/// characters alone, and a string that is no hex key yields nothing.
#[verifier::external_body]
pub fn get_npub1(npub: String) -> (r: Option<String>)
    ensures
        r matches Some(b) ==> b@ == npub_of(npub@),
{
    match nostr_sdk::prelude::PublicKey::from_hex(&npub) {
        Ok(pk) => nostr_sdk::prelude::ToBech32::to_bech32(&pk).ok(),
        Err(_) => None,
    }
}

/// An ASCII whitespace byte.
pub open spec fn is_space_byte(b: u8) -> bool {
    b == 32 || b == 9 || b == 10 || b == 11 || b == 12 || b == 13
}

/// The message body names the bot: it holds at least one word and contains
/// the name.
pub open spec fn mentions_in_content(content: Seq<u8>, name: Seq<u8>) -> bool {
    &&& exists|i: int| 0 <= i < content.len() && !is_space_byte(content[i])
    &&& text::contains_seq(content, name)
}

/// Tag `j` is a `p` tag pointing at a key whose characters are `name`.
pub open spec fn tag_points_at(tags: Seq<Vec<String>>, j: int, name: Seq<char>) -> bool {
    &&& 0 <= j < tags.len()
    &&& tags[j]@.len() > 1
    &&& tags[j]@[0]@.len() == 1
    &&& tags[j]@[0]@[0] == 'p'
    &&& tags[j]@[1]@ == name
}

/// One of the bot's names is mentioned: either the message body names it,
/// or the name is a 64-character key and one of the event's tags points at
/// it.
pub open spec fn mentioned(
    bot_names: Seq<String>,
    content: Seq<u8>,
    tags: Seq<Vec<String>>,
) -> bool {
    exists|k: int|
        0 <= k < bot_names.len() && {
            ||| mentions_in_content(content, encode_utf8(bot_names[k]@))
            ||| (bot_names[k]@.len() == 64 && exists|j: int|
                tag_points_at(tags, j, bot_names[k]@))
        }
}

/// Whether the byte string holds at least one word.
fn has_word(content: &[u8]) -> (r: bool)
    ensures
        r == exists|i: int| 0 <= i < content@.len() && !is_space_byte(content@[i]),
{
    let len = content.len();
    let mut i: usize = 0;
    while i < len
        invariant
            len == content@.len(),
            i <= len,
            forall|t: int| 0 <= t < i ==> is_space_byte(content@[t]),
        decreases len - i,
    {
        let b = content[i];
        if !(b == 32 || b == 9 || b == 10 || b == 11 || b == 12 || b == 13) {
            return true;
        }
        i = i + 1;
    }
    false
}

/// Whether one tag is a `p` tag pointing at `name`.
fn tag_matches(tag: &Vec<String>, name: &String) -> (r: bool)
    ensures
        r == (tag@.len() > 1 && tag@[0]@.len() == 1 && tag@[0]@[0] == 'p' && tag@[1]@ == name@),
{
    if tag.len() <= 1 {
        return false;
    }
    let head = tag[0].as_str();
    if head.unicode_len() != 1 {
        return false;
    }
    head.get_char(0) == 'p' && tag[1] == *name
}

/// Whether the message mentions the bot by one of its names, in the body or
/// through a `p` tag carrying a 64-character key.
pub fn extract_mention(bot_names: &Vec<String>, content: &[u8], tags: &Vec<Vec<String>>) -> (r:
    bool)
    ensures
        r == mentioned(bot_names@, content@, tags@),
{
    let words = has_word(content);
    let mut k: usize = 0;
    while k < bot_names.len()
        invariant
            k <= bot_names@.len(),
            words == exists|i: int| 0 <= i < content@.len() && !is_space_byte(content@[i]),
            forall|t: int|
                0 <= t < k ==> !mentions_in_content(content@, encode_utf8(bot_names@[t]@)) && !(
                bot_names@[t]@.len() == 64 && exists|j: int|
                    tag_points_at(tags@, j, bot_names@[t]@)),
        decreases bot_names@.len() - k,
    {
        let name = &bot_names[k];
        if words && text::contains_bytes(content, name.as_str().as_bytes()) {
            return true;
        }
        let name_str = name.as_str();
        if name_str.unicode_len() == 64 {
            let mut j: usize = 0;
            while j < tags.len()
                invariant
                    j <= tags@.len(),
                    k < bot_names@.len(),
                    name == bot_names@[k as int],
                    bot_names@[k as int]@.len() == 64,
                    forall|t: int| 0 <= t < j ==> !tag_points_at(tags@, t, name@),
                decreases tags@.len() - j,
            {
                if tag_matches(&tags[j], name) {
                    proof {
                        assert(tag_points_at(tags@, j as int, bot_names@[k as int]@));
                        assert(exists|t: int| tag_points_at(tags@, t, bot_names@[k as int]@));
                        assert(bot_names@[k as int]@.len() == 64);
                        assert(mentioned(bot_names@, content@, tags@));
                    }
                    return true;
                }
                j = j + 1;
            }
        }
        k = k + 1;
    }
    false
}

/// Whether any tag of the event is a `p` tag pointing at `pubkey`: the
/// contact-list test behind the follower check.
pub fn has_contact_tag(tags: &Vec<Vec<String>>, pubkey: &String) -> (r: bool)
    ensures
        r == exists|j: int| tag_points_at(tags@, j, pubkey@),
{
    let mut j: usize = 0;
    while j < tags.len()
        invariant
            j <= tags@.len(),
            forall|t: int| 0 <= t < j ==> !tag_points_at(tags@, t, pubkey@),
        decreases tags@.len() - j,
    {
        if tag_matches(&tags[j], pubkey) {
            proof {
                assert(tag_points_at(tags@, j as int, pubkey@));
            }
            return true;
        }
        j = j + 1;
    }
    false
}

} // verus!
