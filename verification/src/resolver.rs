//! Where the interpreter's shared library lives below an installation root,
//! and how it has to be opened, for each family of operating systems.

use vstd::prelude::*;

verus! {

/// The operating-system families the launcher distinguishes.
#[derive(Clone, Copy, Debug, PartialEq, Eq, Structural)]
pub enum Platform {
    /// The Windows family.
    Windows,
    /// Apple's desktop systems.
    MacOs,
    /// Every other target; treated as Unix-like.
    Unix,
}

/// How the dynamic loader is asked to open the library.
#[derive(Clone, Copy, Debug, PartialEq, Eq, Structural)]
pub enum LoadMode {
    /// Bind symbols lazily and export them to libraries loaded afterwards, so
    /// that extension modules can resolve the interpreter's symbols.
    LazyGlobal,
    /// The loader's default behaviour.
    PlatformDefault,
}

/// The character for a single decimal digit.
pub open spec fn digit_char(d: int) -> char {
    if d == 0 {
        '0'
    } else if d == 1 {
        '1'
    } else if d == 2 {
        '2'
    } else if d == 3 {
        '3'
    } else if d == 4 {
        '4'
    } else if d == 5 {
        '5'
    } else if d == 6 {
        '6'
    } else if d == 7 {
        '7'
    } else if d == 8 {
        '8'
    } else {
        '9'
    }
}

/// The decimal numeral of `n`, without leading zeros.
pub open spec fn decimal(n: nat) -> Seq<char>
    decreases n,
{
    if n < 10 {
        seq![digit_char(n as int)]
    } else {
        decimal(n / 10).push(digit_char((n % 10) as int))
    }
}

/// The path segments, below the installation root, of the shared library of
/// interpreter version `major.minor`.
pub open spec fn spec_library_segments(platform: Platform, major: nat, minor: nat) -> Seq<
    Seq<char>,
> {
    match platform {
        Platform::Windows => seq!["python3"@ + decimal(minor) + ".dll"@],
        Platform::MacOs => seq![
            "lib"@,
            "libpython"@ + decimal(major) + "."@ + decimal(minor) + ".dylib"@,
        ],
        Platform::Unix => seq!["lib"@, "libpython3.so"@],
    }
}

/// The load mode each platform calls for.
pub open spec fn spec_load_mode(platform: Platform) -> LoadMode {
    match platform {
        Platform::Windows => LoadMode::PlatformDefault,
        Platform::MacOs => LoadMode::LazyGlobal,
        Platform::Unix => LoadMode::LazyGlobal,
    }
}

fn digit_text(d: u8) -> (text: &'static str)
    requires
        d < 10,
    ensures
        text@ == seq![digit_char(d as int)],
{
    proof {
        reveal_strlit("0");
        reveal_strlit("1");
        reveal_strlit("2");
        reveal_strlit("3");
        reveal_strlit("4");
        reveal_strlit("5");
        reveal_strlit("6");
        reveal_strlit("7");
        reveal_strlit("8");
        reveal_strlit("9");
    }
    let text = if d == 0 {
        "0"
    } else if d == 1 {
        "1"
    } else if d == 2 {
        "2"
    } else if d == 3 {
        "3"
    } else if d == 4 {
        "4"
    } else if d == 5 {
        "5"
    } else if d == 6 {
        "6"
    } else if d == 7 {
        "7"
    } else if d == 8 {
        "8"
    } else {
        "9"
    };
    assert(text@ =~= seq![digit_char(d as int)]);
    text
}

/// Writes `n` as a decimal numeral.
pub fn decimal_text(n: u8) -> (text: String)
    ensures
        text@ == decimal(n as nat),
{
    let mut text = String::new();
    if n >= 100 {
        text.append(digit_text(n / 100));
    }
    if n >= 10 {
        text.append(digit_text((n / 10) % 10));
    }
    text.append(digit_text(n % 10));
    proof {
        let v = n as nat;
        reveal_with_fuel(decimal, 3);
        if v >= 100 {
            assert((v / 10) / 10 == v / 100);
            assert((v / 10) % 10 == ((n / 10) % 10) as nat);
        }
        assert(text@ =~= decimal(v));
    }
    text
}

/// The path segments of the interpreter's shared library below the
/// installation root. Whether the file exists is not looked at here: a missing
/// library shows when it is opened.
pub fn library_segments(platform: Platform, version: (u8, u8)) -> (segments: Vec<String>)
    ensures
        segments.deep_view() == spec_library_segments(
            platform,
            version.0 as nat,
            version.1 as nat,
        ),
{
    let mut segments: Vec<String> = Vec::new();
    match platform {
        Platform::Windows => {
            let mut name = String::from_str("python3");
            name.append(decimal_text(version.1).as_str());
            name.append(".dll");
            segments.push(name);
        },
        Platform::MacOs => {
            let mut name = String::from_str("libpython");
            name.append(decimal_text(version.0).as_str());
            name.append(".");
            name.append(decimal_text(version.1).as_str());
            name.append(".dylib");
            segments.push(String::from_str("lib"));
            segments.push(name);
        },
        Platform::Unix => {
            segments.push(String::from_str("lib"));
            segments.push(String::from_str("libpython3.so"));
        },
    }
    assert(segments.deep_view() =~= spec_library_segments(
        platform,
        version.0 as nat,
        version.1 as nat,
    ));
    segments
}

/// The mode in which the library is opened on `platform`.
pub fn load_mode(platform: Platform) -> (mode: LoadMode)
    ensures
        mode == spec_load_mode(platform),
{
    match platform {
        Platform::Windows => LoadMode::PlatformDefault,
        Platform::MacOs => LoadMode::LazyGlobal,
        Platform::Unix => LoadMode::LazyGlobal,
    }
}

} // verus!
