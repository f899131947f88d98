//! Update availability: the latest release tag against the running version, by semantic-version
//! precedence, and the platform's update command.

use vstd::prelude::*;

use semver::Version;

use crate::text::{concat2, concat3, trim, trim_str};

verus! {

/// The canonical text of the semantic version `text` parses to, or `None` when it does not parse.
pub uninterp spec fn semver_text(text: Seq<char>) -> Option<Seq<char>>;

/// Whether the version `a` parses to has higher precedence than the one `b` parses to.
pub uninterp spec fn semver_greater(a: Seq<char>, b: Seq<char>) -> bool;

/// The `Debug` rendering of a string (quoted and escaped).
pub uninterp spec fn debug_quoted(text: Seq<char>) -> Seq<char>;

/// `Version::parse` followed by `to_string`. The error text is the `semver` crate's message, not
/// stated.
#[verifier::external_body]
fn parse_semver(text: &str) -> (r: Result<String, String>)
    ensures
        r is Ok <==> semver_text(text@) is Some,
        r matches Ok(t) ==> semver_text(text@) == Some(t@),
{
    match Version::parse(text) {
        Ok(version) => Ok(version.to_string()),
        Err(error) => Err(error.to_string()),
    }
}

/// `Version` precedence (`>`) of two texts that both parse.
#[verifier::external_body]
fn semver_newer(a: &str, b: &str) -> (r: bool)
    requires
        semver_text(a@) is Some,
        semver_text(b@) is Some,
    ensures
        r == semver_greater(a@, b@),
{
    match (Version::parse(a), Version::parse(b)) {
        (Ok(x), Ok(y)) => x > y,
        _ => false,
    }
}

/// `format!("{:?}", text)`.
#[verifier::external_body]
fn quoted(text: &str) -> (r: String)
    ensures
        r@ == debug_quoted(text@),
{
    format!("{:?}", text)
}

/// The platform's path separator: `\` on Windows, `/` elsewhere.
#[verifier::external_body]
fn path_separator() -> (r: char)
    ensures
        r == '/' || r == '\\',
{
    std::path::MAIN_SEPARATOR
}

/// Whether an update is available, with the versions compared and the command that installs it.
#[derive(Debug)]
pub struct UpdateInfo {
    pub current_version: String,
    pub latest_version: String,
    pub available: bool,
    pub command: String,
}

/// `str::trim_start_matches('v')`.
pub open spec fn strip_leading_v(s: Seq<char>) -> Seq<char>
    decreases s.len(),
{
    if s.len() > 0 && s[0] == 'v' {
        strip_leading_v(s.drop_first())
    } else {
        s
    }
}

/// The version text of a tag: trimmed, leading `v`s removed.
pub open spec fn version_body(value: Seq<char>) -> Seq<char> {
    strip_leading_v(trim(value))
}

fn strip_leading_v_str(s: &str) -> (r: &str)
    ensures
        r@ == strip_leading_v(s@),
{
    let n = s.unicode_len();
    let mut start: usize = 0;
    proof {
        assert(s@.subrange(0, n as int) =~= s@);
    }
    while start < n && s.get_char(start) == 'v'
        invariant
            n == s@.len(),
            start <= n,
            strip_leading_v(s@.subrange(start as int, n as int)) == strip_leading_v(s@),
        decreases n - start,
    {
        proof {
            assert(s@.subrange(start as int, n as int).drop_first() =~= s@.subrange(
                start + 1,
                n as int,
            ));
        }
        start = start + 1;
    }
    s.substring_char(start, n)
}

pub open spec fn version_error(value: Seq<char>, detail: Seq<char>) -> Seq<char> {
    "invalid release version "@ + debug_quoted(value) + ": "@ + detail
}

/// Parses a release version (`v` prefixes and surrounding whitespace allowed) to its canonical
/// text.
pub fn parse_version(value: &str) -> (r: Result<String, String>)
    ensures
        semver_text(version_body(value@)) matches Some(t) ==> (r matches Ok(v) && v@ == t),
        semver_text(version_body(value@)) is None ==> (r matches Err(e) && exists|detail: Seq<
            char,
        >| e@ == #[trigger] version_error(value@, detail)),
{
    let body = strip_leading_v_str(trim_str(value));
    match parse_semver(body) {
        Ok(text) => Ok(text),
        Err(detail) => {
            let mut message = concat2("invalid release version ", quoted(value).as_str());
            message.append(": ");
            message.append(detail.as_str());
            proof {
                assert(message@ == version_error(value@, detail@));
            }
            Err(message)
        },
    }
}

pub open spec fn windows_command() -> Seq<char> {
    "irm https://axiom.stream/axiomup.ps1 | iex"@
}

pub open spec fn unix_command() -> Seq<char> {
    "curl -fsSL https://axiom.stream/axiomup.sh | bash"@
}

/// The command that installs the latest release on this platform: PowerShell on Windows, a shell
/// pipeline elsewhere.
pub fn update_command() -> (r: &'static str)
    ensures
        r@ == windows_command() || r@ == unix_command(),
{
    if path_separator() == '\\' {
        "irm https://axiom.stream/axiomup.ps1 | iex"
    } else {
        "curl -fsSL https://axiom.stream/axiomup.sh | bash"
    }
}

/// Compares the running version with the latest release tag: both must parse; an update is
/// available when the latest version has higher precedence.
pub fn info_from_tag(current: &str, latest_tag: &str) -> (r: Result<UpdateInfo, String>)
    ensures
        ({
            let cur = semver_text(version_body(current@));
            let lat = semver_text(version_body(latest_tag@));
            &&& cur is None ==> (r matches Err(e) && exists|detail: Seq<char>|
                e@ == #[trigger] version_error(current@, detail))
            &&& cur is Some && lat is None ==> (r matches Err(e) && exists|detail: Seq<char>|
                e@ == #[trigger] version_error(latest_tag@, detail))
            &&& cur is Some && lat is Some ==> (r matches Ok(info) && info.current_version@
                == cur->0 && info.latest_version@ == lat->0 && info.available == semver_greater(
                version_body(latest_tag@),
                version_body(current@),
            ) && (info.command@ == windows_command() || info.command@ == unix_command()))
        }),
{
    let current_version = parse_version(current)?;
    let latest_version = parse_version(latest_tag)?;
    let available = semver_newer(
        strip_leading_v_str(trim_str(latest_tag)),
        strip_leading_v_str(trim_str(current)),
    );
    Ok(
        UpdateInfo {
            current_version,
            latest_version,
            available,
            command: String::from_str(update_command()),
        },
    )
}

} // verus!
