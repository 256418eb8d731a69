//! Method selection for the one-call baseline entry points: the stable names
//! of the methods and the case-insensitive parsing of those names.

use vstd::prelude::*;
use vstd::string::StrSliceExecFns;
use crate::error::{BaselineError, Result};

verus! {

/// Lower-cases an ASCII letter given by its code point; any other code is kept.
pub open spec fn ascii_lower(code: u32) -> u32 {
    if 65 <= code <= 90 {
        (code + 32) as u32
    } else {
        code
    }
}

/// Whether two character sequences match when ASCII letters are compared
/// without regard to case.
pub open spec fn ascii_eq_ignore_case(text: Seq<char>, other: Seq<char>) -> bool {
    &&& text.len() == other.len()
    &&& forall|i: int| 0 <= i < text.len() ==> ascii_lower(#[trigger] text[i] as u32) == ascii_lower(other[i] as u32)
}

/// Whether `variant` is `text` with some of its ASCII letters switched to the
/// other case: an upper-case letter `c` to `c + 32`, a lower-case one to
/// `c - 32`.
pub open spec fn ascii_case_variant(text: Seq<char>, variant: Seq<char>) -> bool {
    &&& text.len() == variant.len()
    &&& forall|i: int|
        0 <= i < text.len() ==> {
            let t = #[trigger] text[i] as u32;
            let v = variant[i] as u32;
            ||| v == t
            ||| 65 <= t <= 90 && v == t + 32
            ||| 97 <= t <= 122 && v + 32 == t
        }
}

/// Texts that differ only in the case of ASCII letters match without regard
/// to case.
pub proof fn lemma_case_variants_match(text: Seq<char>, variant: Seq<char>)
    requires
        ascii_case_variant(text, variant),
    ensures
        ascii_eq_ignore_case(text, variant),
{
    assert forall|i: int| 0 <= i < text.len() implies ascii_lower(#[trigger] text[i] as u32) == ascii_lower(
        variant[i] as u32,
    ) by {
        let t = text[i] as u32;
        let v = variant[i] as u32;
        assert(v == t || (65 <= t <= 90 && v == t + 32) || (97 <= t <= 122 && v + 32 == t));
    }
}

/// Compares `text` with `other`, ignoring the case of ASCII letters.
pub fn eq_ignore_ascii_case(text: &str, other: &str) -> (res: bool)
    ensures
        res == ascii_eq_ignore_case(text@, other@),
        ascii_case_variant(text@, other@) ==> res,
{
    proof {
        if ascii_case_variant(text@, other@) {
            lemma_case_variants_match(text@, other@);
        }
    }
    let n = other.unicode_len();
    if text.unicode_len() != n {
        return false;
    }
    let mut i: usize = 0;
    while i < n
        invariant
            n == other@.len(),
            n == text@.len(),
            i <= n,
            forall|k: int| 0 <= k < i ==> ascii_lower(#[trigger] text@[k] as u32) == ascii_lower(other@[k] as u32),
        decreases n - i,
    {
        let a = text.get_char(i) as u32;
        let b = other.get_char(i) as u32;
        let la = if 65 <= a && a <= 90 { a + 32 } else { a };
        let lb = if 65 <= b && b <= 90 { b + 32 } else { b };
        if la != lb {
            return false;
        }
        i = i + 1;
    }
    true
}

} // verus!

verus! {

/// Common one-dimensional algorithms exposed by the simple API.
#[derive(Debug, Clone, Copy, PartialEq, Eq, Hash, Structural)]
#[non_exhaustive]
pub enum Method {
    /// Asymmetric least-squares smoothing.
    Asls,
    /// Asymmetrically reweighted penalized least-squares smoothing.
    Arpls,
    /// Adaptive iteratively reweighted penalized least-squares smoothing.
    Airpls,
    /// Rolling-ball morphology.
    RollingBall,
    /// Direct least-squares polynomial fitting.
    Polynomial,
}

impl Default for Method {
    fn default() -> (m: Self)
        ensures
            m == Method::Asls,
    {
        Method::Asls
    }
}

impl Method {
    /// Methods accepted by the one-dimensional entry points.
    pub const ALL: [Self; 5] = [
        Method::Asls,
        Method::Arpls,
        Method::Airpls,
        Method::RollingBall,
        Method::Polynomial,
    ];

    /// The stable lowercase name of the method.
    pub open spec fn name(self) -> Seq<char> {
        match self {
            Method::Asls => "asls"@,
            Method::Arpls => "arpls"@,
            Method::Airpls => "airpls"@,
            Method::RollingBall => "rolling_ball"@,
            Method::Polynomial => "polynomial"@,
        }
    }

    /// Returns the stable lowercase method name used by language bindings.
    pub fn as_str(self) -> (s: &'static str)
        ensures
            s@ == self.name(),
    {
        match self {
            Method::Asls => "asls",
            Method::Arpls => "arpls",
            Method::Airpls => "airpls",
            Method::RollingBall => "rolling_ball",
            Method::Polynomial => "polynomial",
        }
    }

    /// The method named by `text`, compared without regard to ASCII case;
    /// `rolling-ball` and `poly` are accepted as aliases.
    pub open spec fn from_name(text: Seq<char>) -> Option<Method> {
        if ascii_eq_ignore_case(text, "asls"@) {
            Some(Method::Asls)
        } else if ascii_eq_ignore_case(text, "arpls"@) {
            Some(Method::Arpls)
        } else if ascii_eq_ignore_case(text, "airpls"@) {
            Some(Method::Airpls)
        } else if ascii_eq_ignore_case(text, "rolling_ball"@) || ascii_eq_ignore_case(text, "rolling-ball"@) {
            Some(Method::RollingBall)
        } else if ascii_eq_ignore_case(text, "polynomial"@) || ascii_eq_ignore_case(text, "poly"@) {
            Some(Method::Polynomial)
        } else {
            None
        }
    }

    /// Parses a method name, ignoring ASCII case.
    pub fn parse(value: &str) -> (res: Result<Method>)
        ensures
            res == (match Method::from_name(value@) {
                Some(m) => Ok::<Method, BaselineError>(m),
                None => Err(BaselineError::InvalidParameter {
                    name: "method",
                    reason: "expected asls, arpls, airpls, rolling_ball, or polynomial",
                }),
            }),
    {
        if eq_ignore_ascii_case(value, "asls") {
            Ok(Method::Asls)
        } else if eq_ignore_ascii_case(value, "arpls") {
            Ok(Method::Arpls)
        } else if eq_ignore_ascii_case(value, "airpls") {
            Ok(Method::Airpls)
        } else if eq_ignore_ascii_case(value, "rolling_ball") || eq_ignore_ascii_case(value, "rolling-ball") {
            Ok(Method::RollingBall)
        } else if eq_ignore_ascii_case(value, "polynomial") || eq_ignore_ascii_case(value, "poly") {
            Ok(Method::Polynomial)
        } else {
            Err(BaselineError::InvalidParameter {
                name: "method",
                reason: "expected asls, arpls, airpls, rolling_ball, or polynomial",
            })
        }
    }
}

impl core::str::FromStr for Method {
    type Err = BaselineError;

    fn from_str(value: &str) -> (res: core::result::Result<Self, BaselineError>)
        ensures
            res == (match Method::from_name(value@) {
                Some(m) => Ok::<Method, BaselineError>(m),
                None => Err(BaselineError::InvalidParameter {
                    name: "method",
                    reason: "expected asls, arpls, airpls, rolling_ball, or polynomial",
                }),
            }),
    {
        Method::parse(value)
    }
}

/// Parsing the stable name of a method gives that method back.
pub proof fn lemma_method_name_roundtrip(m: Method)
    ensures
        Method::from_name(m.name()) == Some(m),
{
    reveal_strlit("asls");
    reveal_strlit("arpls");
    reveal_strlit("airpls");
    reveal_strlit("rolling_ball");
    reveal_strlit("rolling-ball");
    reveal_strlit("polynomial");
    reveal_strlit("poly");
}

} // verus!

verus! {

/// Common two-dimensional algorithms exposed by the simple API.
#[derive(Debug, Clone, Copy, PartialEq, Eq, Hash, Structural)]
#[non_exhaustive]
pub enum Method2D {
    /// Two-dimensional asymmetric least-squares smoothing.
    Asls,
    /// Two-dimensional asymmetrically reweighted penalized least-squares smoothing.
    Arpls,
    /// Two-dimensional rolling-ball morphology.
    RollingBall,
    /// Direct two-dimensional polynomial fitting.
    Polynomial,
}

impl Default for Method2D {
    fn default() -> (m: Self)
        ensures
            m == Method2D::Asls,
    {
        Method2D::Asls
    }
}

impl Method2D {
    /// Methods accepted by the two-dimensional entry points.
    pub const ALL: [Self; 4] = [Method2D::Asls, Method2D::Arpls, Method2D::RollingBall, Method2D::Polynomial];

    /// The stable lowercase name of the method.
    pub open spec fn name(self) -> Seq<char> {
        match self {
            Method2D::Asls => "asls"@,
            Method2D::Arpls => "arpls"@,
            Method2D::RollingBall => "rolling_ball"@,
            Method2D::Polynomial => "polynomial"@,
        }
    }

    /// Returns the stable lowercase method name used by language bindings.
    pub fn as_str(self) -> (s: &'static str)
        ensures
            s@ == self.name(),
    {
        match self {
            Method2D::Asls => "asls",
            Method2D::Arpls => "arpls",
            Method2D::RollingBall => "rolling_ball",
            Method2D::Polynomial => "polynomial",
        }
    }

    /// The method named by `text`, compared without regard to ASCII case;
    /// `rolling-ball` and `poly` are accepted as aliases.
    pub open spec fn from_name(text: Seq<char>) -> Option<Method2D> {
        if ascii_eq_ignore_case(text, "asls"@) {
            Some(Method2D::Asls)
        } else if ascii_eq_ignore_case(text, "arpls"@) {
            Some(Method2D::Arpls)
        } else if ascii_eq_ignore_case(text, "rolling_ball"@) || ascii_eq_ignore_case(text, "rolling-ball"@) {
            Some(Method2D::RollingBall)
        } else if ascii_eq_ignore_case(text, "polynomial"@) || ascii_eq_ignore_case(text, "poly"@) {
            Some(Method2D::Polynomial)
        } else {
            None
        }
    }

    /// Parses a method name, ignoring ASCII case.
    pub fn parse(value: &str) -> (res: Result<Method2D>)
        ensures
            res == (match Method2D::from_name(value@) {
                Some(m) => Ok::<Method2D, BaselineError>(m),
                None => Err(BaselineError::InvalidParameter {
                    name: "method",
                    reason: "expected asls, arpls, rolling_ball, or polynomial",
                }),
            }),
    {
        if eq_ignore_ascii_case(value, "asls") {
            Ok(Method2D::Asls)
        } else if eq_ignore_ascii_case(value, "arpls") {
            Ok(Method2D::Arpls)
        } else if eq_ignore_ascii_case(value, "rolling_ball") || eq_ignore_ascii_case(value, "rolling-ball") {
            Ok(Method2D::RollingBall)
        } else if eq_ignore_ascii_case(value, "polynomial") || eq_ignore_ascii_case(value, "poly") {
            Ok(Method2D::Polynomial)
        } else {
            Err(BaselineError::InvalidParameter {
                name: "method",
                reason: "expected asls, arpls, rolling_ball, or polynomial",
            })
        }
    }
}

impl core::str::FromStr for Method2D {
    type Err = BaselineError;

    fn from_str(value: &str) -> (res: core::result::Result<Self, BaselineError>)
        ensures
            res == (match Method2D::from_name(value@) {
                Some(m) => Ok::<Method2D, BaselineError>(m),
                None => Err(BaselineError::InvalidParameter {
                    name: "method",
                    reason: "expected asls, arpls, rolling_ball, or polynomial",
                }),
            }),
    {
        Method2D::parse(value)
    }
}

/// Parsing the stable name of a two-dimensional method gives that method back.
pub proof fn lemma_method_2d_name_roundtrip(m: Method2D)
    ensures
        Method2D::from_name(m.name()) == Some(m),
{
    reveal_strlit("asls");
    reveal_strlit("arpls");
    reveal_strlit("rolling_ball");
    reveal_strlit("rolling-ball");
    reveal_strlit("polynomial");
    reveal_strlit("poly");
}

/// Distinct methods have distinct stable names.
pub proof fn lemma_method_names_distinct(a: Method, b: Method)
    requires
        a != b,
    ensures
        a.name() != b.name(),
{
    lemma_method_name_roundtrip(a);
    lemma_method_name_roundtrip(b);
}

/// A method name is recognised whatever the case of its ASCII letters: two
/// texts that match ignoring case name the same method.
pub proof fn lemma_method_parse_ignores_case(text: Seq<char>, other: Seq<char>)
    requires
        ascii_eq_ignore_case(text, other),
    ensures
        Method::from_name(text) == Method::from_name(other),
        Method2D::from_name(text) == Method2D::from_name(other),
{
    lemma_eq_ignore_case_transfer(text, other, "asls"@);
    lemma_eq_ignore_case_transfer(text, other, "arpls"@);
    lemma_eq_ignore_case_transfer(text, other, "airpls"@);
    lemma_eq_ignore_case_transfer(text, other, "rolling_ball"@);
    lemma_eq_ignore_case_transfer(text, other, "rolling-ball"@);
    lemma_eq_ignore_case_transfer(text, other, "polynomial"@);
    lemma_eq_ignore_case_transfer(text, other, "poly"@);
}

/// Case-insensitive matching is transitive: texts that match each other
/// match the same third texts.
pub proof fn lemma_eq_ignore_case_transfer(a: Seq<char>, b: Seq<char>, c: Seq<char>)
    requires
        ascii_eq_ignore_case(a, b),
    ensures
        ascii_eq_ignore_case(a, c) == ascii_eq_ignore_case(b, c),
{
    if ascii_eq_ignore_case(a, c) {
        assert forall|i: int| 0 <= i < b.len() implies ascii_lower(#[trigger] b[i] as u32) == ascii_lower(c[i] as u32) by {
            assert(ascii_lower(a[i] as u32) == ascii_lower(b[i] as u32));
        }
    }
    if ascii_eq_ignore_case(b, c) {
        assert forall|i: int| 0 <= i < a.len() implies ascii_lower(#[trigger] a[i] as u32) == ascii_lower(c[i] as u32) by {
            assert(ascii_lower(b[i] as u32) == ascii_lower(c[i] as u32));
        }
    }
}

/// Every two-dimensional method has a one-dimensional method of the same name.
pub proof fn lemma_method_2d_names_are_1d_names(m: Method2D)
    ensures
        Method::from_name(m.name()) is Some,
{
    reveal_strlit("asls");
    reveal_strlit("arpls");
    reveal_strlit("airpls");
    reveal_strlit("rolling_ball");
    reveal_strlit("polynomial");
}


/// A method name is parsed whatever the case of its letters: every text that
/// differs from a method's name only in the case of ASCII letters parses to
/// that method, one-dimensional or two-dimensional.
pub proof fn lemma_method_name_case_variants_parse(text: Seq<char>)
    ensures
        forall|m: Method| ascii_case_variant(m.name(), text) ==> Method::from_name(text) == Some(m),
        forall|m: Method2D| ascii_case_variant(m.name(), text) ==> Method2D::from_name(text) == Some(m),
{
    assert forall|m: Method| ascii_case_variant(m.name(), text) implies Method::from_name(text) == Some(m) by {
        lemma_case_variants_match(m.name(), text);
        lemma_method_parse_ignores_case(m.name(), text);
        lemma_method_name_roundtrip(m);
    }
    assert forall|m: Method2D| ascii_case_variant(m.name(), text) implies Method2D::from_name(text) == Some(m) by {
        lemma_case_variants_match(m.name(), text);
        lemma_method_parse_ignores_case(m.name(), text);
        lemma_method_2d_name_roundtrip(m);
    }
}

} // verus!
