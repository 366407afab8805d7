use vstd::prelude::*;
use vstd::string::*;

use crate::platform::PlatformKey;

verus! {

/// Identifies one SDK release: a major and minor version and the platform
/// the archive was built for. Derived once at startup and never mutated.
#[derive(Clone, Copy, PartialEq, Eq, Structural, Debug)]
pub struct SdkDescriptor {
    pub major: u32,
    pub minor: u32,
    pub platform_key: PlatformKey,
}

/// The SDK major version the build pins by default.
pub const DEFAULT_SDK_MAJOR: u32 = 20;

/// The SDK minor version the build pins by default.
pub const DEFAULT_SDK_MINOR: u32 = 0;

/// Builds the descriptor for the default pinned SDK release on the given
/// platform.
pub fn default_descriptor(platform_key: PlatformKey) -> (d: SdkDescriptor)
    ensures
        d.major == DEFAULT_SDK_MAJOR,
        d.minor == DEFAULT_SDK_MINOR,
        d.platform_key == platform_key,
{
    SdkDescriptor { major: DEFAULT_SDK_MAJOR, minor: DEFAULT_SDK_MINOR, platform_key }
}

/// The character for one decimal digit.
pub open spec fn digit_char(d: nat) -> char {
    if d == 0 {
        '0'
    } else if d == 1 {
        '1'
    } else if d == 2 {
        '2'
    } else if d == 3 {
        '3'
    } else if d == 4 {
        '4'
    } else if d == 5 {
        '5'
    } else if d == 6 {
        '6'
    } else if d == 7 {
        '7'
    } else if d == 8 {
        '8'
    } else {
        '9'
    }
}

/// The usual decimal representation of a number: no sign, no leading zeros
/// (a single `'0'` for zero).
pub open spec fn decimal_rep(n: nat) -> Seq<char>
    decreases n,
{
    if n < 10 {
        seq![digit_char(n)]
    } else {
        decimal_rep(n / 10).push(digit_char(n % 10))
    }
}

/// Whether a character is a decimal digit.
pub open spec fn is_digit_char(c: char) -> bool {
    c == '0' || c == '1' || c == '2' || c == '3' || c == '4' || c == '5' || c == '6' || c == '7'
        || c == '8' || c == '9'
}

/// A decimal representation is never empty and consists of digits only.
pub proof fn lemma_decimal_rep_digits(n: nat)
    ensures
        decimal_rep(n).len() >= 1,
        forall|i: int|
            0 <= i < decimal_rep(n).len() ==> is_digit_char(#[trigger] decimal_rep(n)[i]),
    decreases n,
{
    if n >= 10 {
        lemma_decimal_rep_digits(n / 10);
    }
}

/// Distinct numbers have distinct decimal representations.
pub proof fn lemma_decimal_rep_injective(a: nat, b: nat)
    requires
        decimal_rep(a) == decimal_rep(b),
    ensures
        a == b,
    decreases a,
{
    lemma_decimal_rep_digits(a);
    lemma_decimal_rep_digits(b);
    if a < 10 && b < 10 {
        assert(decimal_rep(a)[0] == digit_char(a));
        assert(decimal_rep(b)[0] == digit_char(b));
    } else if a < 10 {
        assert(decimal_rep(b).len() >= 2) by {
            lemma_decimal_rep_digits(b / 10);
        }
    } else if b < 10 {
        assert(decimal_rep(a).len() >= 2) by {
            lemma_decimal_rep_digits(a / 10);
        }
    } else {
        assert(decimal_rep(a).last() == digit_char(a % 10));
        assert(decimal_rep(b).last() == digit_char(b % 10));
        assert(a % 10 == b % 10);
        assert(decimal_rep(a).drop_last() =~= decimal_rep(a / 10));
        assert(decimal_rep(b).drop_last() =~= decimal_rep(b / 10));
        lemma_decimal_rep_injective(a / 10, b / 10);
        assert(a == 10 * (a / 10) + a % 10) by {
            vstd::arithmetic::div_mod::lemma_fundamental_div_mod(a as int, 10);
        }
        assert(b == 10 * (b / 10) + b % 10) by {
            vstd::arithmetic::div_mod::lemma_fundamental_div_mod(b as int, 10);
        }
    }
}

/// The filename the archive for a release is cached under. It encodes the
/// major and minor version, so distinct releases never collide in the cache.
pub open spec fn archive_filename_spec(major: nat, minor: nat) -> Seq<char> {
    "wasi-sdk-"@ + decimal_rep(major) + "-"@ + decimal_rep(minor) + ".tar.gz"@
}

/// Archive filenames never collide: two releases whose cached filenames are
/// equal have the same major and minor version. The filename embeds both
/// numbers in decimal between fixed separators, and a digit can never stand
/// where a separator stands.
pub proof fn lemma_archive_filename_injective(major1: nat, minor1: nat, major2: nat, minor2: nat)
    requires
        archive_filename_spec(major1, minor1) == archive_filename_spec(major2, minor2),
    ensures
        major1 == major2,
        minor1 == minor2,
{
    reveal_strlit("wasi-sdk-");
    reveal_strlit("-");
    reveal_strlit(".tar.gz");
    lemma_decimal_rep_digits(major1);
    lemma_decimal_rep_digits(major2);
    lemma_decimal_rep_digits(minor1);
    lemma_decimal_rep_digits(minor2);
    let p = "wasi-sdk-"@;
    let dash = "-"@;
    let suf = ".tar.gz"@;
    let d1 = decimal_rep(major1);
    let d2 = decimal_rep(major2);
    let e1 = decimal_rep(minor1);
    let e2 = decimal_rep(minor2);
    let s1 = archive_filename_spec(major1, minor1);
    let s2 = archive_filename_spec(major2, minor2);
    assert(p.len() == 9);
    assert(dash.len() == 1);
    assert(suf.len() == 7);
    assert(s1.len() == 9 + d1.len() + 1 + e1.len() + 7);
    assert(s2.len() == 9 + d2.len() + 1 + e2.len() + 7);
    if d1.len() < d2.len() {
        let i = 9 + d1.len() as int;
        assert(s1[i] == dash[0]);
        assert(s2[i] == d2[i - 9]);
        assert(is_digit_char(d2[i - 9]));
        assert(false);
    }
    if d2.len() < d1.len() {
        let i = 9 + d2.len() as int;
        assert(s2[i] == dash[0]);
        assert(s1[i] == d1[i - 9]);
        assert(is_digit_char(d1[i - 9]));
        assert(false);
    }
    assert(d1 =~= d2) by {
        assert forall|j: int| 0 <= j < d1.len() implies d1[j] == d2[j] by {
            assert(s1[9 + j] == d1[j]);
            assert(s2[9 + j] == d2[j]);
        }
    }
    lemma_decimal_rep_injective(major1, major2);
    assert(e1.len() == e2.len());
    let off = 9 + d1.len() as int + 1;
    assert(e1 =~= e2) by {
        assert forall|j: int| 0 <= j < e1.len() implies e1[j] == e2[j] by {
            assert(s1[off + j] == e1[j]);
            assert(s2[off + j] == e2[j]);
        }
    }
    lemma_decimal_rep_injective(minor1, minor2);
}

/// The platform component of a release's download name.
pub open spec fn platform_key_label(key: PlatformKey) -> Seq<char> {
    match key {
        PlatformKey::Linux => "linux"@,
        PlatformKey::Macos => "macos"@,
        PlatformKey::MingwX86 => "mingw-x86"@,
        PlatformKey::Mingw => "mingw"@,
    }
}

/// The URI an absent archive is fetched from: versioned and
/// platform-specific.
pub open spec fn download_uri_spec(major: nat, minor: nat, key: PlatformKey) -> Seq<char> {
    "https://github.com/WebAssembly/wasi-sdk/releases/download/wasi-sdk-"@ + decimal_rep(major)
        + "/wasi-sdk-"@ + decimal_rep(major) + "."@ + decimal_rep(minor) + "-"@
        + platform_key_label(key) + ".tar.gz"@
}

/// The single character that a decimal digit renders to.
fn digit_string(d: u32) -> (r: &'static str)
    requires
        d < 10,
    ensures
        r@ =~= seq![digit_char(d as nat)],
{
    proof {
        reveal_strlit("0");
        reveal_strlit("1");
        reveal_strlit("2");
        reveal_strlit("3");
        reveal_strlit("4");
        reveal_strlit("5");
        reveal_strlit("6");
        reveal_strlit("7");
        reveal_strlit("8");
        reveal_strlit("9");
    }
    if d == 0 {
        "0"
    } else if d == 1 {
        "1"
    } else if d == 2 {
        "2"
    } else if d == 3 {
        "3"
    } else if d == 4 {
        "4"
    } else if d == 5 {
        "5"
    } else if d == 6 {
        "6"
    } else if d == 7 {
        "7"
    } else if d == 8 {
        "8"
    } else {
        "9"
    }
}

/// Renders a number in decimal.
pub fn decimal_string(n: u32) -> (r: String)
    ensures
        r@ == decimal_rep(n as nat),
    decreases n,
{
    if n < 10 {
        String::from_str(digit_string(n))
    } else {
        let prefix = decimal_string(n / 10);
        let r = prefix.concat(digit_string(n % 10));
        proof {
            assert(r@ =~= decimal_rep(n as nat));
        }
        r
    }
}

/// Builds the archive filename for a release.
pub fn archive_filename(descriptor: &SdkDescriptor) -> (r: String)
    ensures
        r@ == archive_filename_spec(descriptor.major as nat, descriptor.minor as nat),
{
    let mut name = String::from_str("wasi-sdk-");
    let major_digits = decimal_string(descriptor.major);
    name.append(major_digits.as_str());
    name.append("-");
    let minor_digits = decimal_string(descriptor.minor);
    name.append(minor_digits.as_str());
    name.append(".tar.gz");
    proof {
        assert(name@ =~= archive_filename_spec(
            descriptor.major as nat,
            descriptor.minor as nat,
        ));
    }
    name
}

/// The platform component of a release's download name.
pub fn platform_key_name(key: PlatformKey) -> (r: &'static str)
    ensures
        r@ == platform_key_label(key),
{
    match key {
        PlatformKey::Linux => "linux",
        PlatformKey::Macos => "macos",
        PlatformKey::MingwX86 => "mingw-x86",
        PlatformKey::Mingw => "mingw",
    }
}

/// Builds the download URI for a release.
pub fn download_uri(descriptor: &SdkDescriptor) -> (r: String)
    ensures
        r@ == download_uri_spec(
            descriptor.major as nat,
            descriptor.minor as nat,
            descriptor.platform_key,
        ),
{
    let mut uri = String::from_str(
        "https://github.com/WebAssembly/wasi-sdk/releases/download/wasi-sdk-",
    );
    let major_digits = decimal_string(descriptor.major);
    uri.append(major_digits.as_str());
    uri.append("/wasi-sdk-");
    uri.append(major_digits.as_str());
    uri.append(".");
    let minor_digits = decimal_string(descriptor.minor);
    uri.append(minor_digits.as_str());
    uri.append("-");
    uri.append(platform_key_name(descriptor.platform_key));
    uri.append(".tar.gz");
    proof {
        assert(uri@ =~= download_uri_spec(
            descriptor.major as nat,
            descriptor.minor as nat,
            descriptor.platform_key,
        ));
    }
    uri
}

} // verus!
