//! Shader source text: how a snippet is classified, and the two candidate
//! fragment programs (harness-wrapped and raw) built from it.

use vstd::prelude::*;

verus! {

/// `pat` occurs as a contiguous run of characters somewhere in `text`.
pub open spec fn occurs_in(pat: Seq<char>, text: Seq<char>) -> bool {
    exists|i: int|
        0 <= i && i + pat.len() <= text.len() && #[trigger] text.subrange(i, i + pat.len()) == pat
}

/// The characters of `s`, one per element.
pub fn chars_of(s: &str) -> (r: Vec<char>)
    ensures
        r@ == s@,
{
    let n = s.unicode_len();
    let mut r: Vec<char> = Vec::new();
    let mut i: usize = 0;
    while i < n
        invariant
            n == s@.len(),
            i <= n,
            r@ == s@.subrange(0, i as int),
        decreases n - i,
    {
        r.push(s.get_char(i));
        i = i + 1;
        assert(r@ =~= s@.subrange(0, i as int));
    }
    assert(r@ =~= s@);
    r
}

fn matches_at(text: &Vec<char>, pat: &Vec<char>, at: usize) -> (r: bool)
    requires
        at + pat@.len() <= text@.len(),
    ensures
        r == (text@.subrange(at as int, at + pat@.len()) == pat@),
{
    let n = text.len();
    let mut j: usize = 0;
    while j < pat.len()
        invariant
            n == text@.len(),
            at + pat@.len() <= text@.len(),
            j <= pat@.len(),
            forall|k: int| 0 <= k < j ==> text@[at + k] == pat@[k],
        decreases pat@.len() - j,
    {
        if text[at + j] != pat[j] {
            assert(text@.subrange(at as int, at + pat@.len())[j as int] != pat@[j as int]);
            return false;
        }
        j = j + 1;
    }
    assert(text@.subrange(at as int, at + pat@.len()) =~= pat@);
    true
}

/// Whether `pat` occurs in `text`.
pub fn contains_chars(text: &Vec<char>, pat: &Vec<char>) -> (r: bool)
    ensures
        r == occurs_in(pat@, text@),
{
    if pat.len() > text.len() {
        return false;
    }
    let last = text.len() - pat.len();
    let mut i: usize = 0;
    loop
        invariant
            last == text@.len() - pat@.len(),
            pat@.len() <= text@.len(),
            i <= last,
            forall|k: int|
                0 <= k < i ==> #[trigger] text@.subrange(k, k + pat@.len()) != pat@,
        decreases last - i,
    {
        if matches_at(text, pat, i) {
            return true;
        }
        if i == last {
            return false;
        }
        i = i + 1;
    }
}

/// The two conventions a snippet may follow.
#[derive(Clone, Copy, Debug, PartialEq, Eq, Structural)]
pub enum Mode {
    /// A bare body run inside a harness that supplies `FC`, `r`, `t` and reads `o`.
    Tweet,
    /// A self-contained fragment program with its own entry point and output.
    Full,
}

impl Mode {
    /// The mode tried when this one fails.
    pub open spec fn other_spec(self) -> Mode {
        match self {
            Mode::Tweet => Mode::Full,
            Mode::Full => Mode::Tweet,
        }
    }

    /// The mode tried when this one fails.
    pub fn other(self) -> (m: Mode)
        ensures
            m == self.other_spec(),
            m != self,
    {
        match self {
            Mode::Tweet => Mode::Full,
            Mode::Full => Mode::Tweet,
        }
    }
}

pub const ENTRY_POINT_MARK: &'static str = "void main";

pub const VERSION_MARK: &'static str = "#version";

pub const LEGACY_OUTPUT_MARK: &'static str = "gl_FragColor";

pub const OUTPUT_DECL_MARK: &'static str = "out vec4";

/// A snippet reads as a complete program when it declares an entry point, a
/// version pragma, a legacy output write or an explicit output.
pub open spec fn looks_full(s: Seq<char>) -> bool {
    occurs_in(ENTRY_POINT_MARK@, s) || occurs_in(VERSION_MARK@, s) || occurs_in(
        LEGACY_OUTPUT_MARK@,
        s,
    ) || occurs_in(OUTPUT_DECL_MARK@, s)
}

/// The mode tried first: full when the snippet looks complete, else tweet.
pub open spec fn classify_spec(s: Seq<char>) -> Mode {
    if looks_full(s) {
        Mode::Full
    } else {
        Mode::Tweet
    }
}

fn contains_str(text: &Vec<char>, pat: &str) -> (r: bool)
    ensures
        r == occurs_in(pat@, text@),
{
    let p = chars_of(pat);
    contains_chars(text, &p)
}

/// The mode tried first for `snippet`.
pub fn classify(snippet: &str) -> (m: Mode)
    ensures
        m == classify_spec(snippet@),
{
    let text = chars_of(snippet);
    if contains_str(&text, ENTRY_POINT_MARK) || contains_str(&text, VERSION_MARK) || contains_str(
        &text,
        LEGACY_OUTPUT_MARK,
    ) || contains_str(&text, OUTPUT_DECL_MARK) {
        Mode::Full
    } else {
        Mode::Tweet
    }
}

/// The graphics profile a program is built for; it fixes the language
/// version and the precision line once per build.
#[derive(Clone, Copy, Debug, PartialEq, Eq, Structural)]
pub enum Profile {
    /// Desktop OpenGL core profile.
    Desktop,
    /// OpenGL ES, as used in browsers.
    Embedded,
}

pub const NEWLINE: &'static str = "\n";

pub const DESKTOP_VERSION: &'static str = "#version 330 core";

pub const EMBEDDED_VERSION: &'static str = "#version 300 es";

pub const EMBEDDED_PRECISION: &'static str = "precision mediump float;";

/// Name of the uniform that holds the elapsed seconds.
pub const TIME_UNIFORM: &'static str = "t";

/// Name of the uniform that holds the resolution in pixels.
pub const RESOLUTION_UNIFORM: &'static str = "r";

/// Name of the uniform that holds the origin of the drawn rectangle.
pub const ORIGIN_UNIFORM: &'static str = "rect_min";

/// Vertex stage: one triangle that covers the viewport, its corners picked by
/// the vertex index, so that no vertex buffer is needed.
pub const VERTEX_BODY: &'static str = "
const vec2 verts[3] = vec2[3](
    vec2(-1, -1),
    vec2(3, -1),
    vec2(-1, 3)
);

void main() {
    gl_Position = vec4(verts[gl_VertexID], 0, 1);
}
";

/// Harness around a tweet body, up to the body.
pub const TWEET_HEAD: &'static str = "
uniform vec2 r;
uniform float t;
uniform vec2 rect_min;
out vec4 fragColor;

void main() {
    vec2 FC = gl_FragCoord.xy - rect_min;
    vec4 o = vec4(0);
";

/// Harness around a tweet body, after the body.
pub const TWEET_TAIL: &'static str = "
    fragColor = o;
}
";

/// The version pragma of the profile.
pub open spec fn version_line(p: Profile) -> Seq<char> {
    match p {
        Profile::Desktop => DESKTOP_VERSION@,
        Profile::Embedded => EMBEDDED_VERSION@,
    }
}

/// The default precision line of the profile; desktop needs none.
pub open spec fn precision_line(p: Profile) -> Seq<char> {
    match p {
        Profile::Desktop => Seq::empty(),
        Profile::Embedded => EMBEDDED_PRECISION@,
    }
}

/// The vertex stage shared by both modes.
pub open spec fn vertex_text(p: Profile) -> Seq<char> {
    version_line(p) + NEWLINE@ + VERTEX_BODY@
}

/// The snippet injected into the harness.
pub open spec fn tweet_text(p: Profile, snippet: Seq<char>) -> Seq<char> {
    version_line(p) + NEWLINE@ + precision_line(p) + TWEET_HEAD@ + snippet + TWEET_TAIL@
}

/// The snippet as a program of its own; a version pragma is added unless it
/// carries one.
pub open spec fn full_text(p: Profile, snippet: Seq<char>) -> Seq<char> {
    if occurs_in(VERSION_MARK@, snippet) {
        snippet
    } else {
        match p {
            Profile::Desktop => version_line(p) + NEWLINE@ + snippet,
            Profile::Embedded => version_line(p) + NEWLINE@ + precision_line(p) + NEWLINE@
                + snippet,
        }
    }
}

fn version_str(p: Profile) -> (r: &'static str)
    ensures
        r@ == version_line(p),
{
    match p {
        Profile::Desktop => DESKTOP_VERSION,
        Profile::Embedded => EMBEDDED_VERSION,
    }
}

/// The vertex stage source for `p`.
pub fn vertex_source(p: Profile) -> (r: String)
    ensures
        r@ == vertex_text(p),
{
    let mut r = String::from_str(version_str(p));
    r.append(NEWLINE);
    r.append(VERTEX_BODY);
    r
}

/// The tweet-mode fragment source: `snippet` inside the harness.
pub fn tweet_source(p: Profile, snippet: &str) -> (r: String)
    ensures
        r@ == tweet_text(p, snippet@),
{
    let mut r = String::from_str(version_str(p));
    r.append(NEWLINE);
    match p {
        Profile::Desktop => {},
        Profile::Embedded => r.append(EMBEDDED_PRECISION),
    }
    r.append(TWEET_HEAD);
    r.append(snippet);
    r.append(TWEET_TAIL);
    r
}

/// The full-mode fragment source: `snippet` as it stands, behind a version
/// pragma unless it has one.
pub fn full_source(p: Profile, snippet: &str) -> (r: String)
    ensures
        r@ == full_text(p, snippet@),
{
    let text = chars_of(snippet);
    if contains_str(&text, VERSION_MARK) {
        return String::from_str(snippet);
    }
    let mut r = String::from_str(version_str(p));
    r.append(NEWLINE);
    match p {
        Profile::Desktop => {},
        Profile::Embedded => {
            r.append(EMBEDDED_PRECISION);
            r.append(NEWLINE);
        },
    }
    r.append(snippet);
    r
}

} // verus!
