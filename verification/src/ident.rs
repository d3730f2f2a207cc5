//! Identifiers of stored records.

use vstd::prelude::*;
use vstd::string::*;

verus! {

/// A lower-case hexadecimal digit.
pub open spec fn is_lower_hex(c: char) -> bool {
    ('0' <= c <= '9') || ('a' <= c <= 'f')
}

/// The hyphenated form of a UUID: 36 characters, hyphens after the 8th,
/// 12th, 16th and 20th digit, lower-case hexadecimal digits elsewhere.
pub open spec fn is_uuid_text(s: Seq<char>) -> bool {
    &&& s.len() == 36
    &&& forall|i: int|
        0 <= i < 36 ==> if i == 8 || i == 13 || i == 18 || i == 23 {
            #[trigger] s[i] == '-'
        } else {
            is_lower_hex(s[i])
        }
}

/// The hyphenated form of a random (version 4) UUID: the version digit is
/// `4` and the variant digit is one of `8`, `9`, `a`, `b`.
pub open spec fn is_random_uuid_text(s: Seq<char>) -> bool {
    &&& is_uuid_text(s)
    &&& s[14] == '4'
    &&& (s[19] == '8' || s[19] == '9' || s[19] == 'a' || s[19] == 'b')
}

/// Draws a UUID with `uuid::Uuid::new_v4` and writes it with its `Display`
/// form, which is lower-case and hyphenated. Which UUID comes is chance; the
/// contract states the shape that every one of them has.
#[verifier::external_body]
fn random_uuid() -> (r: String)
    ensures
        is_random_uuid_text(r@),
{
    uuid::Uuid::new_v4().to_string()
}

/// A fresh identifier for a workspace, project or document.
pub fn fresh_id() -> (id: String)
    ensures
        is_random_uuid_text(id@),
{
    random_uuid()
}

/// A fresh identifier that starts with `prefix`, as agents (`agent-`) and
/// providers (`prov-`) carry.
pub fn fresh_prefixed_id(prefix: &str) -> (id: String)
    ensures
        id@.len() == prefix@.len() + 36,
        id@.take(prefix@.len() as int) == prefix@,
        is_random_uuid_text(id@.skip(prefix@.len() as int)),
{
    let tail = random_uuid();
    let mut id = String::from_str(prefix);
    id.append(tail.as_str());
    proof {
        assert(id@.take(prefix@.len() as int) =~= prefix@);
        assert(id@.skip(prefix@.len() as int) =~= tail@);
    }
    id
}

} // verus!
