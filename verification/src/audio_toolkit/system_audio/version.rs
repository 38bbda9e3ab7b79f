//! The version of macOS.

use vstd::prelude::*;

use crate::settings::Platform;
use crate::text::{
    parse_u32, pieces, split_at_char, texts, trim, trimmed, unsigned_value,
};

verus! {

/// The pieces that are numbers, as numbers; the others are passed over.
pub open spec fn numbers(parts: Seq<Seq<char>>) -> Seq<u32>
    decreases parts.len(),
{
    if parts.len() == 0 {
        Seq::empty()
    } else {
        match unsigned_value(parts.last(), u32::MAX as nat) {
            Some(n) => numbers(parts.drop_last()).push(n as u32),
            None => numbers(parts.drop_last()),
        }
    }
}

/// The numbers of a version like `14.2.1`.
pub open spec fn version_numbers(text: Seq<char>) -> Seq<u32> {
    numbers(pieces(trimmed(text), '.'))
}

/// The number at a place of the version, zero where there is none.
pub open spec fn version_part(parts: Seq<u32>, i: int) -> u32 {
    if i < parts.len() {
        parts[i]
    } else {
        0
    }
}

/// Capturing the system audio takes macOS 14.2 or later.
pub open spec fn available(platform: Platform, version: Seq<char>) -> bool {
    let parts = version_numbers(version);
    let major = version_part(parts, 0);
    let minor = version_part(parts, 1);
    platform.mac() && (major > 14 || (major == 14 && minor >= 2))
}

/// The major, minor and patch number of a version.
pub fn macos_version(text: &str) -> (r: (u32, u32, u32))
    ensures
        r.0 == version_part(version_numbers(text@), 0),
        r.1 == version_part(version_numbers(text@), 1),
        r.2 == version_part(version_numbers(text@), 2),
{
    let stripped = trim(text);
    let split = split_at_char(stripped.as_str(), '.');
    let mut parts: Vec<u32> = Vec::new();
    let mut i: usize = 0;
    while i < split.len()
        invariant
            i <= split@.len(),
            texts(split@) == pieces(trimmed(text@), '.'),
            parts@ == numbers(texts(split@).take(i as int)),
        decreases split.len() - i,
    {
        proof {
            assert(texts(split@).take(i + 1).drop_last() =~= texts(split@).take(i as int));
            assert(texts(split@).take(i + 1).last() == split@[i as int]@);
        }
        if let Some(n) = parse_u32(split[i].as_str()) {
            parts.push(n);
        }
        i = i + 1;
    }
    proof {
        assert(texts(split@).take(i as int) =~= texts(split@));
    }
    (
        if parts.len() > 0 {
            parts[0]
        } else {
            0
        },
        if parts.len() > 1 {
            parts[1]
        } else {
            0
        },
        if parts.len() > 2 {
            parts[2]
        } else {
            0
        },
    )
}

/// Whether the system audio can be captured, given the version of the system.
pub fn is_available(platform: Platform, version: &str) -> (b: bool)
    ensures
        b == available(platform, version@),
{
    let (major, minor, _patch) = macos_version(version);
    platform.is_mac() && (major > 14 || (major == 14 && minor >= 2))
}

/// A later version captures what an earlier one does.
pub proof fn law_availability_is_monotone(platform: Platform, earlier: Seq<char>, later: Seq<char>)
    requires
        available(platform, earlier),
        ({
            let old = version_numbers(earlier);
            let new = version_numbers(later);
            ||| version_part(new, 0) > version_part(old, 0)
            ||| version_part(new, 0) == version_part(old, 0) && version_part(new, 1)
                >= version_part(old, 1)
        }),
    ensures
        available(platform, later),
{
}

/// The system audio can be captured on macOS from version 14.2 on.
pub proof fn law_available_from_14_2(platform: Platform, version: Seq<char>)
    ensures
        ({
            let parts = version_numbers(version);
            let major = if parts.len() > 0 {
                parts[0] as int
            } else {
                0
            };
            let minor = if parts.len() > 1 {
                parts[1] as int
            } else {
                0
            };
            available(platform, version) <==> {
                &&& platform is MacIntel || platform is MacApple
                &&& major >= 15 || (major == 14 && minor >= 2)
            }
        }),
{
}

/// The numbers of a version are those of its parts between points, in order; a
/// part that is no number is passed over.
pub proof fn law_the_numbers_of_a_version(parts: Seq<Seq<char>>, part: Seq<char>)
    ensures
        numbers(Seq::empty()) == Seq::<u32>::empty(),
        numbers(parts.push(part)) == match unsigned_value(part, 0xffff_ffff) {
            Some(n) => numbers(parts).push(n as u32),
            None => numbers(parts),
        },
        forall|text: Seq<char>| #[trigger]
            version_numbers(text) == numbers(pieces(trimmed(text), '.')),
{
    assert(parts.push(part).drop_last() =~= parts);
}

} // verus!
