//! Validator capabilities and environment checking.
//!
//! Which languages a validator can execute. Probing the machine for
//! installed runtimes is left to the application.

use vstd::prelude::*;
use vstd::string::*;

verus! {

/// Languages supported by the verification system
#[derive(Debug, Clone, Copy, PartialEq, Eq, Structural, Hash)]
pub enum LanguageSupport {
    /// Python
    Python,
    /// JavaScript
    JavaScript,
    /// TypeScript
    TypeScript,
    /// WebAssembly
    Wasm,
}

impl LanguageSupport {
    /// Get all supported languages
    pub fn all() -> (r: Vec<Self>)
        ensures
            r@ == seq![
                LanguageSupport::Python,
                LanguageSupport::JavaScript,
                LanguageSupport::TypeScript,
                LanguageSupport::Wasm,
            ],
    {
        let mut out: Vec<Self> = Vec::new();
        out.push(LanguageSupport::Python);
        out.push(LanguageSupport::JavaScript);
        out.push(LanguageSupport::TypeScript);
        out.push(LanguageSupport::Wasm);
        assert(out@ =~= seq![
            LanguageSupport::Python,
            LanguageSupport::JavaScript,
            LanguageSupport::TypeScript,
            LanguageSupport::Wasm,
        ]);
        out
    }

    /// Get the language name
    pub fn name(&self) -> (r: &'static str)
        ensures
            r@ == match self {
                LanguageSupport::Python => "python"@,
                LanguageSupport::JavaScript => "javascript"@,
                LanguageSupport::TypeScript => "typescript"@,
                LanguageSupport::Wasm => "wasm"@,
            },
    {
        match self {
            LanguageSupport::Python => "python",
            LanguageSupport::JavaScript => "javascript",
            LanguageSupport::TypeScript => "typescript",
            LanguageSupport::Wasm => "wasm",
        }
    }

    /// Get the display name
    pub fn display_name(&self) -> (r: &'static str)
        ensures
            r@ == match self {
                LanguageSupport::Python => "Python"@,
                LanguageSupport::JavaScript => "JavaScript"@,
                LanguageSupport::TypeScript => "TypeScript"@,
                LanguageSupport::Wasm => "WebAssembly"@,
            },
    {
        match self {
            LanguageSupport::Python => "Python",
            LanguageSupport::JavaScript => "JavaScript",
            LanguageSupport::TypeScript => "TypeScript",
            LanguageSupport::Wasm => "WebAssembly",
        }
    }
}

/// Environment check results
#[derive(Debug, Clone)]
pub struct EnvironmentCheck {
    /// Language being checked
    pub language: LanguageSupport,
    /// Whether the language runtime is available
    pub available: bool,
    /// Version information if available
    pub version: Option<String>,
    /// Any warnings or issues
    pub warnings: Vec<String>,
    /// Setup instructions if not available
    pub setup_instructions: Option<String>,
}

/// Version text for the embedded WebAssembly runtime
pub const EMBEDDED_WASM: &'static str = "embedded (wasmer)";

/// Version text for the embedded JavaScript runtime
pub const EMBEDDED_JS: &'static str = "embedded (Deno)";

impl EnvironmentCheck {
    /// Check WASM environment: the runtime is embedded, so it is always
    /// available.
    pub fn check_wasm() -> (r: Self)
        ensures
            r@ == wasm_check(),
    {
        let r = EnvironmentCheck {
            language: LanguageSupport::Wasm,
            available: true,
            version: Some(String::from_str(EMBEDDED_WASM)),
            warnings: Vec::new(),
            setup_instructions: None,
        };
        assert(r@.warnings =~= wasm_check().warnings);
        r
    }

    /// The check of the TypeScript environment that follows from a check of
    /// the JavaScript environment: TypeScript runs on the same runtime.
    pub fn typescript_from(javascript: Self) -> (r: Self)
        ensures
            r == (EnvironmentCheck { language: LanguageSupport::TypeScript, ..javascript }),
    {
        let mut check = javascript;
        check.language = LanguageSupport::TypeScript;
        check
    }
}

/// Whether `needle` occurs in `text` at `position`.
pub open spec fn occurs_at(text: Seq<u8>, needle: Seq<u8>, position: int) -> bool {
    0 <= position && position + needle.len() <= text.len() && text.subrange(
        position,
        position + needle.len(),
    ) == needle
}

/// Whether `needle` occurs somewhere in `text`.
pub open spec fn occurs_in(text: Seq<u8>, needle: Seq<u8>) -> bool {
    exists|position: int| occurs_at(text, needle, position)
}

/// Whether `needle` occurs somewhere in `text`.
pub fn contains_bytes(text: &[u8], needle: &[u8]) -> (r: bool)
    ensures
        r == occurs_in(text@, needle@),
{
    if needle.len() > text.len() {
        assert forall|position: int| !occurs_at(text@, needle@, position) by {}
        return false;
    }
    let last: usize = text.len() - needle.len();
    let mut start: usize = 0;
    while start <= last
        invariant
            needle@.len() <= text@.len(),
            text@.len() <= usize::MAX,
            last == text@.len() - needle@.len(),
            0 <= start <= last + 1,
            forall|position: int| 0 <= position < start ==> !occurs_at(text@, needle@, position),
        decreases last + 1 - start,
    {
        let mut i: usize = 0;
        let mut same = true;
        while i < needle.len()
            invariant
                needle@.len() <= text@.len(),
                text@.len() <= usize::MAX,
                last == text@.len() - needle@.len(),
                start <= last,
                0 <= i <= needle@.len(),
                same ==> forall|j: int| 0 <= j < i ==> text@[start + j] == needle@[j],
                !same ==> !occurs_at(text@, needle@, start as int),
            decreases needle@.len() - i,
        {
            if text[start + i] != needle[i] {
                assert(text@.subrange(start as int, start + needle@.len())[i as int]
                    != needle@[i as int]);
                same = false;
            }
            i += 1;
        }
        if same {
            assert(text@.subrange(start as int, start + needle@.len()) =~= needle@);
            assert(occurs_at(text@, needle@, start as int));
            return true;
        }
        if start == last {
            assert forall|position: int| !occurs_at(text@, needle@, position) by {}
            return false;
        }
        start += 1;
    }
    assert forall|position: int| !occurs_at(text@, needle@, position) by {}
    false
}

/// Whether a byte is a decimal digit.
pub open spec fn is_digit(byte: u8) -> bool {
    0x30 <= byte <= 0x39
}

/// How many decimal digits stand in a row in `text` from index `from` on.
pub open spec fn digits_from(text: Seq<u8>, from: int) -> int
    decreases text.len() - from,
{
    if 0 <= from < text.len() && is_digit(text[from]) {
        1 + digits_from(text, from + 1)
    } else {
        0
    }
}

/// The number that the first `count` bytes of `text` stand for, read as
/// decimal digits.
pub open spec fn decimal(text: Seq<u8>, count: int) -> int
    decreases count,
{
    if count <= 0 {
        0
    } else {
        decimal(text, count - 1) * 10 + (text[count - 1] - 0x30)
    }
}

/// The number that the decimal digits at the front of a text stand for:
/// none where the text starts with no digit or the number does not fit in 32
/// bits.
pub open spec fn leading(text: Seq<u8>) -> Option<u32> {
    let count = digits_from(text, 0);
    if count == 0 || decimal(text, count) > u32::MAX {
        None
    } else {
        Some(decimal(text, count) as u32)
    }
}

/// More digits stand for no smaller number.
proof fn lemma_decimal_grows(text: Seq<u8>, fewer: int, more: int)
    requires
        0 <= fewer <= more <= text.len(),
        forall|j: int| 0 <= j < more ==> is_digit(#[trigger] text[j]),
    ensures
        0 <= decimal(text, fewer) <= decimal(text, more),
    decreases more,
{
    if fewer == 0 {
        if more > 0 {
            lemma_decimal_grows(text, 0, more - 1);
        }
    } else if fewer < more {
        lemma_decimal_grows(text, fewer, more - 1);
    } else {
        lemma_decimal_grows(text, fewer - 1, more - 1);
    }
}

/// The digits that stand in a row from `from` on are digits, and no more of
/// them fit in the text.
proof fn lemma_digits_from(text: Seq<u8>, from: int)
    requires
        0 <= from <= text.len(),
    ensures
        0 <= digits_from(text, from) <= text.len() - from,
        forall|j: int| from <= j < from + digits_from(text, from) ==> is_digit(#[trigger] text[j]),
    decreases text.len() - from,
{
    if from < text.len() && is_digit(text[from]) {
        lemma_digits_from(text, from + 1);
    }
}

/// The number that the decimal digits at the front of a text stand for, up
/// to the first byte that is no digit, as far as it fits in 32 bits.
pub fn leading_number(text: &[u8]) -> (r: Option<u32>)
    ensures
        r == leading(text@),
{
    let mut value: u32 = 0;
    let mut i: usize = 0;
    while i < text.len() && 0x30 <= text[i] && text[i] <= 0x39
        invariant
            0 <= i <= text@.len(),
            forall|j: int| 0 <= j < i ==> is_digit(#[trigger] text@[j]),
            digits_from(text@, 0) == i + digits_from(text@, i as int),
            value == decimal(text@, i as int),
        decreases text@.len() - i,
    {
        proof {
            let count = digits_from(text@, 0);
            lemma_digits_from(text@, i as int);
            lemma_digits_from(text@, i as int + 1);
            assert(is_digit(text@[i as int]));
            assert(digits_from(text@, i as int) == 1 + digits_from(text@, i as int + 1));
            assert forall|j: int| 0 <= j < count implies is_digit(#[trigger] text@[j]) by {}
            lemma_decimal_grows(text@, i as int + 1, count);
        }
        let digit: u32 = (text[i] - 0x30) as u32;
        value = match value.checked_mul(10) {
            Some(v) => match v.checked_add(digit) {
                Some(w) => w,
                None => {
                    return None;
                },
            },
            None => {
                return None;
            },
        };
        i += 1;
    }
    if i == 0 {
        None
    } else {
        Some(value)
    }
}

/// Advice shown when no Python runtime is found
pub const PYTHON_SETUP: &'static str =
    "Install Python 3.8 or higher:\nmacOS: brew install python3\nUbuntu: sudo apt install python3\nWindows: Download from python.org";

/// Warning drawn by a Python outside the supported versions
pub const PYTHON_WARNING: &'static str = "Python 3.8 or higher recommended";

/// Warning drawn by a Node.js before version 18
pub const NODE_WARNING: &'static str = "Node.js 18 or higher recommended";

/// What an environment check holds, as plain values.
pub struct CheckView {
    /// Language being checked
    pub language: LanguageSupport,
    /// Whether the language runtime is available
    pub available: bool,
    /// Version information if available
    pub version: Option<Seq<char>>,
    /// Any warnings or issues
    pub warnings: Seq<Seq<char>>,
    /// Setup instructions if not available
    pub setup_instructions: Option<Seq<char>>,
}

/// A text that may be there, as plain values.
pub open spec fn text_view(text: Option<String>) -> Option<Seq<char>> {
    match text {
        Some(t) => Some(t@),
        None => None,
    }
}

impl View for EnvironmentCheck {
    type V = CheckView;

    open spec fn view(&self) -> CheckView {
        CheckView {
            language: self.language,
            available: self.available,
            version: text_view(self.version),
            warnings: self.warnings@.map_values(|w: String| w@),
            setup_instructions: text_view(self.setup_instructions),
        }
    }
}

/// The check of the WebAssembly environment: embedded, always available.
pub open spec fn wasm_check() -> CheckView {
    CheckView {
        language: LanguageSupport::Wasm,
        available: true,
        version: Some(EMBEDDED_WASM@),
        warnings: Seq::empty(),
        setup_instructions: None,
    }
}

/// Whether the version text of a Python names one of the versions 3.8 to
/// 3.13.
pub open spec fn names_recent_python(version: Seq<char>) -> bool {
    let text = vstd::utf8::encode_utf8(version);
    ||| occurs_in(text, vstd::utf8::encode_utf8("3.8"@))
    ||| occurs_in(text, vstd::utf8::encode_utf8("3.9"@))
    ||| occurs_in(text, vstd::utf8::encode_utf8("3.10"@))
    ||| occurs_in(text, vstd::utf8::encode_utf8("3.11"@))
    ||| occurs_in(text, vstd::utf8::encode_utf8("3.12"@))
    ||| occurs_in(text, vstd::utf8::encode_utf8("3.13"@))
}

/// Whether the version text of a Node.js is a `v` followed by a number below
/// 18.
pub open spec fn names_old_node(version: Seq<char>) -> bool {
    let text = vstd::utf8::encode_utf8(version);
    text.len() > 0 && text[0] == 0x76 && match leading(text.subrange(1, text.len() as int)) {
        Some(major) => major < 18,
        None => false,
    }
}

/// The check of the Python environment for a version text, if there is one.
pub open spec fn python_check(version: Option<Seq<char>>) -> CheckView {
    CheckView {
        language: LanguageSupport::Python,
        available: version is Some,
        version,
        warnings: match version {
            Some(v) => if names_recent_python(v) {
                Seq::empty()
            } else {
                seq![PYTHON_WARNING@]
            },
            None => Seq::empty(),
        },
        setup_instructions: match version {
            Some(_) => None,
            None => Some(PYTHON_SETUP@),
        },
    }
}

/// The check of the JavaScript environment for a Node.js version text, if
/// there is one, under the given language.
pub open spec fn node_check(language: LanguageSupport, version: Option<Seq<char>>) -> CheckView {
    CheckView {
        language,
        available: true,
        version: match version {
            Some(v) => Some(v),
            None => Some(EMBEDDED_JS@),
        },
        warnings: match version {
            Some(v) => if names_old_node(v) {
                seq![NODE_WARNING@]
            } else {
                Seq::empty()
            },
            None => Seq::empty(),
        },
        setup_instructions: None,
    }
}

impl EnvironmentCheck {
    /// The check of the Python environment, given what `python3 --version`
    /// printed, if it ran. A version outside 3.8 to 3.13 draws a warning; no
    /// runtime at all draws setup instructions.
    pub fn check_python_from(version: Option<String>) -> (r: Self)
        ensures
            r@ == python_check(text_view(version)),
    {
        let mut warnings: Vec<String> = Vec::new();
        let available = version.is_some();
        match &version {
            Some(v) => {
                let text = v.as_str().as_bytes();
                let recent = contains_bytes(text, "3.8".as_bytes()) || contains_bytes(
                    text,
                    "3.9".as_bytes(),
                ) || contains_bytes(text, "3.10".as_bytes()) || contains_bytes(
                    text,
                    "3.11".as_bytes(),
                ) || contains_bytes(text, "3.12".as_bytes()) || contains_bytes(
                    text,
                    "3.13".as_bytes(),
                );
                if !recent {
                    warnings.push(String::from_str(PYTHON_WARNING));
                }
            },
            None => {},
        }
        let setup_instructions = if available {
            None
        } else {
            Some(String::from_str(PYTHON_SETUP))
        };
        let r = EnvironmentCheck {
            language: LanguageSupport::Python,
            available,
            version,
            warnings,
            setup_instructions,
        };
        assert(r@.warnings =~= python_check(text_view(version)).warnings);
        r
    }

    /// The check of the JavaScript environment, given what `node --version`
    /// printed, if it ran. JavaScript is always available, through the
    /// embedded runtime where Node.js is missing; a Node.js older than 18
    /// draws a warning.
    pub fn check_nodejs_from(version: Option<String>) -> (r: Self)
        ensures
            r@ == node_check(LanguageSupport::JavaScript, text_view(version)),
    {
        let ghost given = text_view(version);
        let mut warnings: Vec<String> = Vec::new();
        let version = match version {
            Some(v) => {
                let text = v.as_str().as_bytes();
                if text.len() > 0 && text[0] == 0x76 {
                    let digits = vstd::slice::slice_subrange(text, 1, text.len());
                    match leading_number(digits) {
                        Some(major) => {
                            if major < 18 {
                                warnings.push(String::from_str(NODE_WARNING));
                            }
                        },
                        None => {},
                    }
                }
                Some(v)
            },
            None => Some(String::from_str(EMBEDDED_JS)),
        };
        let r = EnvironmentCheck {
            language: LanguageSupport::JavaScript,
            available: true,
            version,
            warnings,
            setup_instructions: None,
        };
        assert(r@.warnings =~= node_check(LanguageSupport::JavaScript, given).warnings);
        r
    }

    /// The check of the TypeScript environment: that of JavaScript, under
    /// the other name.
    pub fn check_typescript_from(node_version: Option<String>) -> (r: Self)
        ensures
            r@ == node_check(LanguageSupport::TypeScript, text_view(node_version)),
    {
        Self::typescript_from(Self::check_nodejs_from(node_version))
    }

    /// The checks of all four environments, in the order Python, JavaScript,
    /// TypeScript, WebAssembly, given what the two version commands printed.
    pub fn check_all_from(python_version: Option<String>, node_version: Option<String>) -> (r: Vec<
        Self,
    >)
        ensures
            r@.len() == 4,
            r@[0]@ == python_check(text_view(python_version)),
            r@[1]@ == node_check(LanguageSupport::JavaScript, text_view(node_version)),
            r@[2]@ == node_check(LanguageSupport::TypeScript, text_view(node_version)),
            r@[3]@ == wasm_check(),
    {
        let node_again = match &node_version {
            Some(v) => Some(v.clone()),
            None => None,
        };
        let mut out: Vec<Self> = Vec::new();
        out.push(Self::check_python_from(python_version));
        out.push(Self::check_nodejs_from(node_version));
        out.push(Self::check_typescript_from(node_again));
        out.push(Self::check_wasm());
        out
    }
}

/// Calculate supply/demand weights for job distribution
pub struct JobDistribution {}

/// The indices, in order, of those among the first `upto` validators that
/// support a language. A validator is given by the languages it supports.
pub open spec fn supporters_among(
    validators: Seq<Vec<LanguageSupport>>,
    language: LanguageSupport,
    upto: int,
) -> Seq<usize>
    decreases upto,
{
    if upto <= 0 {
        Seq::empty()
    } else if validators[upto - 1]@.contains(language) {
        supporters_among(validators, language, upto - 1).push((upto - 1) as usize)
    } else {
        supporters_among(validators, language, upto - 1)
    }
}

/// Whether a list of languages holds a language.
pub fn supports(languages: &[LanguageSupport], language: LanguageSupport) -> (r: bool)
    ensures
        r == languages@.contains(language),
{
    let mut i: usize = 0;
    while i < languages.len()
        invariant
            0 <= i <= languages@.len(),
            forall|j: int| 0 <= j < i ==> languages@[j] != language,
        decreases languages@.len() - i,
    {
        if languages[i] == language {
            return true;
        }
        i += 1;
    }
    false
}

impl JobDistribution {
    /// The validators that support a language, by their indices, in order.
    /// These are the validators that share a job of that language; the
    /// fewer they are among all validators, the scarcer the language.
    pub fn supporters(language: LanguageSupport, all_validators: &[Vec<LanguageSupport>]) -> (r:
        Vec<usize>)
        ensures
            r@ == supporters_among(all_validators@, language, all_validators@.len() as int),
    {
        let mut out: Vec<usize> = Vec::new();
        let mut i: usize = 0;
        while i < all_validators.len()
            invariant
                0 <= i <= all_validators@.len(),
                out@ == supporters_among(all_validators@, language, i as int),
            decreases all_validators@.len() - i,
        {
            if supports(all_validators[i].as_slice(), language) {
                out.push(i);
            }
            i += 1;
        }
        out
    }
}

} // verus!
