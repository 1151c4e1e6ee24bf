//! The storage partition of a run: its identifier, and where the browser
//! keeps the partition's profile.

use vstd::prelude::*;

verus! {

/// A UUID as its 128 bits, most significant first.
pub type PartitionId = u128;

/// What `uuid::Uuid::parse_str` yields for a text, as the UUID's bits.
pub uninterp spec fn uuid_parse(text: Seq<char>) -> Option<u128>;

/// Relies on `uuid::Uuid::parse_str`, and on `Uuid::as_u128` for the bits.
#[verifier::external_body]
fn parse_uuid(text: &str) -> (r: Option<u128>)
    ensures
        r == uuid_parse(text@),
{
    match uuid::Uuid::parse_str(text) {
        Ok(u) => Some(u.as_u128()),
        Err(_) => None,
    }
}

/// A random (version 4, RFC 4122 variant) UUID: version 4 in bits 76 to 79,
/// variant `0b10` in bits 62 and 63.
pub open spec fn is_random_uuid(id: u128) -> bool {
    (id >> 76u128) & 0xfu128 == 4u128 && (id >> 62u128) & 0x3u128 == 2u128
}

/// Relies on `uuid::Uuid::new_v4`, which masks random bits to version 4 and
/// the RFC 4122 variant.
#[verifier::external_body]
fn random_uuid() -> (r: u128)
    ensures
        is_random_uuid(r),
{
    uuid::Uuid::new_v4().as_u128()
}

/// The identifier for a run: the given text when it parses as a UUID, a
/// fresh random one when it is absent or does not parse.
pub fn partition_id(text: Option<&str>) -> (r: PartitionId)
    ensures
        (text matches Some(t) && uuid_parse(t@) is Some) ==> Some(r) == uuid_parse(
            text.unwrap()@,
        ),
        !(text matches Some(t) && uuid_parse(t@) is Some) ==> is_random_uuid(r),
{
    match text {
        Some(t) => match parse_uuid(t) {
            Some(id) => id,
            None => random_uuid(),
        },
        None => random_uuid(),
    }
}

pub open spec fn hex_char(n: nat) -> char {
    seq!['0', '1', '2', '3', '4', '5', '6', '7', '8', '9', 'a', 'b', 'c', 'd', 'e', 'f'][n as int]
}

/// The lowest `count` hexadecimal digits of `v`, most significant first.
pub open spec fn hex_digits(v: nat, count: nat) -> Seq<char>
    decreases count,
{
    if count == 0 {
        seq![]
    } else {
        hex_digits(v / 16, (count - 1) as nat).push(hex_char(v % 16))
    }
}

/// The hyphenated lower-case form of a UUID, grouped 8-4-4-4-12.
pub open spec fn hyphenated_text(id: u128) -> Seq<char> {
    let h = hex_digits(id as nat, 32);
    h.subrange(0, 8) + seq!['-'] + h.subrange(8, 12) + seq!['-'] + h.subrange(12, 16) + seq!['-']
        + h.subrange(16, 20) + seq!['-'] + h.subrange(20, 32)
}

/// Relies on `uuid::Uuid::hyphenated` formatted through `ToString`: 32
/// lower-case hexadecimal digits of the big-endian bytes, grouped 8-4-4-4-12.
#[verifier::external_body]
fn uuid_text(id: u128) -> (r: String)
    ensures
        r@ == hyphenated_text(id),
{
    uuid::Uuid::from_u128(id).hyphenated().to_string()
}

/// The directory that a cache root is placed under.
#[derive(PartialEq, Eq, Structural, Clone, Copy, Debug)]
pub enum BaseDir {
    /// The platform's local data directory of this application.
    ProjectDataLocal,
    /// The user's home directory.
    Home,
    /// The system's temporary directory.
    Temp,
}

/// A cache root: a base directory and the path segments below it.
pub struct CacheRootLayout {
    pub base: BaseDir,
    pub segments: Vec<String>,
}

/// The name of the application, also the directory that holds the
/// partitions where no application data directory is known.
pub open spec fn app_name_chars() -> Seq<char> {
    seq!['L', 'C', 'A', 'P']
}

pub open spec fn segments_view(v: Seq<String>) -> Seq<Seq<char>> {
    v.map_values(|s: String| s@)
}

/// Where the profile of partition `id` lives: `<data-local>/<id>` when the
/// platform names an application data directory, else `<home>/LCAP/<id>`,
/// else `<temp>/LCAP/<id>`.
pub fn get_cache_root(has_project_dirs: bool, has_home: bool, id: PartitionId) -> (r:
    CacheRootLayout)
    ensures
        r.base == (if has_project_dirs {
            BaseDir::ProjectDataLocal
        } else if has_home {
            BaseDir::Home
        } else {
            BaseDir::Temp
        }),
        segments_view(r.segments@) == (if has_project_dirs {
            seq![hyphenated_text(id)]
        } else {
            seq![app_name_chars(), hyphenated_text(id)]
        }),
{
    let leaf = uuid_text(id);
    let mut segments: Vec<String> = Vec::new();
    let base = if has_project_dirs {
        BaseDir::ProjectDataLocal
    } else {
        let name = "LCAP".to_owned();
        proof {
            reveal_strlit("LCAP");
            assert(name@ =~= app_name_chars());
        }
        segments.push(name);
        if has_home {
            BaseDir::Home
        } else {
            BaseDir::Temp
        }
    };
    segments.push(leaf);
    let r = CacheRootLayout { base, segments };
    assert(segments_view(r.segments@) =~= (if has_project_dirs {
        seq![hyphenated_text(id)]
    } else {
        seq![app_name_chars(), hyphenated_text(id)]
    }));
    r
}

} // verus!
