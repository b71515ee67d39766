//! Source registry entries: where a source is fetched, what it may return
//! and how fast it may be fetched.

use crate::text::{copy_texts, owned, str_eq, trim_spec, trim_str};
use vstd::prelude::*;

verus! {

/// An endpoint of a source.
#[derive(Debug)]
pub struct EndpointSpec {
    pub url: String,
    pub method: String,
}

/// What a source's payloads may be.
#[derive(Debug)]
pub struct ContentSpec {
    pub allowed_mime_types: Vec<String>,
    pub max_payload_size_bytes: u64,
}

/// The license of a source.
#[derive(Debug)]
pub struct PolicySpec {
    pub license_id: String,
}

/// How often and how much a source may be fetched.
#[derive(Debug)]
pub struct RateLimitsSpec {
    pub requests_per_min: Option<u64>,
    pub bytes_per_min: Option<u64>,
    pub concurrency: Option<u32>,
}

/// A source's registry entry.
#[derive(Debug)]
pub struct SourceSpecV1 {
    pub source_id: String,
    pub enabled: bool,
    pub endpoints: Vec<EndpointSpec>,
    pub content: ContentSpec,
    pub policy: PolicySpec,
    pub parse_plan_ref: Option<String>,
    pub rate_limits: RateLimitsSpec,
}

/// Why a payload was refused.
#[derive(Debug)]
pub enum PayloadRejection {
    /// The declared length exceeds the source's maximum.
    TooLarge { size: u64, max: u64 },
    /// The media type (before any `;` parameters) is not allowed: the type
    /// given and the allow-list.
    MimeNotAllowed { content_type: String, allowed: Vec<String> },
}

/// The part of `s` before the first `c` (all of `s` without one).
pub open spec fn before_first(s: Seq<char>, c: char) -> Seq<char>
    decreases s.len(),
{
    if s.len() == 0 {
        s
    } else if s[0] == c {
        Seq::empty()
    } else {
        seq![s[0]] + before_first(s.subrange(1, s.len() as int), c)
    }
}

/// The media type of a `Content-Type` value: the part before the first `;`,
/// trimmed.
pub open spec fn mime_base(content_type: Seq<char>) -> Seq<char> {
    trim_spec(before_first(content_type, ';'))
}

/// Whether `m` is in the allow-list.
pub open spec fn mime_allowed(allowed: Seq<String>, m: Seq<char>) -> bool {
    exists|i: int| 0 <= i < allowed.len() && (#[trigger] allowed[i])@ == m
}

/// The part of `s` before the first `c`.
pub fn before_first_char(s: &str, c: char) -> (r: String)
    ensures
        r@ == before_first(s@, c),
{
    let cs = crate::text::chars_of(s);
    let mut out: Vec<char> = Vec::new();
    let mut i: usize = 0;
    assert(cs@.subrange(0, cs@.len() as int) =~= cs@);
    while i < cs.len() && cs[i] != c
        invariant
            cs@ == s@,
            i <= cs@.len(),
            out@ == cs@.subrange(0, i as int),
            forall|j: int| 0 <= j < i ==> cs@[j] != c,
            out@ + before_first(cs@.subrange(i as int, cs@.len() as int), c) == before_first(s@, c),
        decreases cs@.len() - i,
    {
        let ghost rest = cs@.subrange(i as int, cs@.len() as int);
        assert(rest.subrange(1, rest.len() as int) =~= cs@.subrange(i + 1, cs@.len() as int));
        out.push(cs[i]);
        assert(out@ =~= cs@.subrange(0, i + 1));
        assert(out@ + before_first(cs@.subrange(i + 1, cs@.len() as int), c) =~= cs@.subrange(0, i as int) + (seq![cs@[i as int]]
            + before_first(cs@.subrange(i + 1, cs@.len() as int), c)));
        i = i + 1;
    }
    assert(before_first(cs@.subrange(i as int, cs@.len() as int), c) =~= Seq::<char>::empty());
    assert(out@ + Seq::<char>::empty() =~= out@);
    crate::text::from_chars(&out)
}

/// Whether a payload of this type and declared length may be accepted: its
/// length within the maximum, then its media type in the allow-list.
pub fn check_payload(content_type: &str, content_length: u64, content: &ContentSpec) -> (r: Result<(), PayloadRejection>)
    ensures
        content_length > content.max_payload_size_bytes ==> (r matches Err(PayloadRejection::TooLarge { size, max })
            && size == content_length && max == content.max_payload_size_bytes),
        content_length <= content.max_payload_size_bytes && !mime_allowed(content.allowed_mime_types@, mime_base(content_type@))
            ==> (r matches Err(PayloadRejection::MimeNotAllowed { content_type: t, allowed })
                && t@ == content_type@ && allowed@.map_values(|x: String| x@) == content.allowed_mime_types@.map_values(|x: String| x@)),
        content_length <= content.max_payload_size_bytes && mime_allowed(content.allowed_mime_types@, mime_base(content_type@))
            ==> r is Ok,
{
    if content_length > content.max_payload_size_bytes {
        return Err(PayloadRejection::TooLarge { size: content_length, max: content.max_payload_size_bytes });
    }
    let cut = before_first_char(content_type, ';');
    let base = trim_str(cut.as_str());
    let mut i: usize = 0;
    while i < content.allowed_mime_types.len()
        invariant
            i <= content.allowed_mime_types@.len(),
            content_length <= content.max_payload_size_bytes,
            base@ == mime_base(content_type@),
            forall|j: int| 0 <= j < i ==> (#[trigger] content.allowed_mime_types@[j])@ != base@,
        decreases content.allowed_mime_types@.len() - i,
    {
        if str_eq(content.allowed_mime_types[i].as_str(), base.as_str()) {
            assert((content.allowed_mime_types@[i as int])@ == base@);
            return Ok(());
        }
        i = i + 1;
    }
    Err(PayloadRejection::MimeNotAllowed { content_type: owned(content_type), allowed: copy_texts(&content.allowed_mime_types) })
}

} // verus!
