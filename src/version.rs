//! API versions, the range of them that a service supports, and the choice of
//! the highest supported version among candidates.

use vstd::prelude::*;

use crate::error::Error;

verus! {

/// An API version: a major and a minor revision, ordered by major, then minor.
#[derive(PartialEq, Eq, Structural, Clone, Copy, Debug, Hash, PartialOrd, Ord)]
pub struct ApiVersion(pub u16, pub u16);

impl ApiVersion {
    /// `self` comes no later than `other` in the order of versions.
    pub open spec fn at_most(self, other: ApiVersion) -> bool {
        self.0 < other.0 || (self.0 == other.0 && self.1 <= other.1)
    }

    /// Whether `self` comes no later than `other`.
    pub fn is_at_most(&self, other: &ApiVersion) -> (r: bool)
        ensures
            r == self.at_most(*other),
    {
        self.0 < other.0 || (self.0 == other.0 && self.1 <= other.1)
    }

    /// The usual text of the version: major and minor in decimal, joined by a dot.
    pub open spec fn text(self) -> Seq<char> {
        decimal(self.0 as nat) + seq!['.'] + decimal(self.1 as nat)
    }

    /// The version written in `s` as two decimal numbers joined by a dot,
    /// such as `2.19`; `None` where `s` is not of that form or a number does
    /// not fit in 16 bits.
    pub fn parse(s: &str) -> (r: Option<ApiVersion>)
        ensures
            r is Some <==> exists|dot: int| is_version_text(s@, dot),
            r matches Some(v) ==> forall|dot: int|
                #[trigger] is_version_text(s@, dot) ==> v.0 as nat == digits_value(s@.subrange(0, dot))
                    && v.1 as nat == digits_value(s@.subrange(dot + 1, s@.len() as int)),
    {
        let len = s.unicode_len();
        let mut k: usize = 0;
        while k < len && s.get_char(k) != '.'
            invariant
                k <= len == s@.len(),
                forall|j: int| 0 <= j < k ==> s@[j] != '.',
            decreases len - k,
        {
            k = k + 1;
        }
        assert forall|dot: int| is_version_text(s@, dot) implies dot == k by {
            if dot > k {
                assert(s@.subrange(0, dot)[k as int] == s@[k as int]);
            }
        }
        if k == len {
            return None;
        }
        match (parse_number(s, 0, k), parse_number(s, k + 1, len)) {
            (Some(major), Some(minor)) => {
                assert(is_version_text(s@, k as int));
                Some(ApiVersion(major, minor))
            },
            _ => None,
        }
    }

    /// The text of the version, such as `2.19`.
    pub fn to_text(&self) -> (r: String)
        ensures
            r@ == self.text(),
    {
        let mut s = String::new();
        append_decimal(&mut s, self.0);
        proof {
            reveal_strlit(".");
        }
        s.append(".");
        append_decimal(&mut s, self.1);
        s
    }
}

/// The character of decimal digit `d`.
pub open spec fn digit_char(d: nat) -> char {
    if d == 0 { '0' }
    else if d == 1 { '1' }
    else if d == 2 { '2' }
    else if d == 3 { '3' }
    else if d == 4 { '4' }
    else if d == 5 { '5' }
    else if d == 6 { '6' }
    else if d == 7 { '7' }
    else if d == 8 { '8' }
    else { '9' }
}

/// The decimal digits of `n`, most significant first, without leading zeros.
pub open spec fn decimal(n: nat) -> Seq<char>
    decreases n,
{
    if n < 10 {
        seq![digit_char(n)]
    } else {
        decimal(n / 10) + seq![digit_char(n % 10)]
    }
}

/// The text of a single decimal digit.
fn digit_text(d: u16) -> (r: &'static str)
    requires
        d < 10,
    ensures
        r@ == seq![digit_char(d as nat)],
{
    proof {
        reveal_strlit("0");
        reveal_strlit("1");
        reveal_strlit("2");
        reveal_strlit("3");
        reveal_strlit("4");
        reveal_strlit("5");
        reveal_strlit("6");
        reveal_strlit("7");
        reveal_strlit("8");
        reveal_strlit("9");
    }
    if d == 0 { "0" }
    else if d == 1 { "1" }
    else if d == 2 { "2" }
    else if d == 3 { "3" }
    else if d == 4 { "4" }
    else if d == 5 { "5" }
    else if d == 6 { "6" }
    else if d == 7 { "7" }
    else if d == 8 { "8" }
    else { "9" }
}

/// Appends the decimal digits of `n` to `s`.
fn append_decimal(s: &mut String, n: u16)
    ensures
        final(s)@ == old(s)@ + decimal(n as nat),
    decreases n,
{
    if n >= 10 {
        append_decimal(s, n / 10);
    }
    s.append(digit_text(n % 10));
    assert(s@ =~= old(s)@ + decimal(n as nat));
}

/// A decimal digit character.
pub open spec fn is_digit(c: char) -> bool {
    '0' <= c && c <= '9'
}

/// Every character of `s` is a decimal digit.
pub open spec fn all_digits(s: Seq<char>) -> bool {
    forall|i: int| 0 <= i < s.len() ==> is_digit(#[trigger] s[i])
}

/// The number that a string of decimal digits denotes.
pub open spec fn digits_value(s: Seq<char>) -> nat
    decreases s.len(),
{
    if s.len() == 0 {
        0
    } else {
        digits_value(s.drop_last()) * 10 + (s.last() as u32 - '0' as u32) as nat
    }
}

/// The run of digits from `from` to `to` in `s`: a number that fits in 16 bits.
pub open spec fn is_number_text(s: Seq<char>, from: int, to: int) -> bool {
    &&& from < to
    &&& all_digits(s.subrange(from, to))
    &&& digits_value(s.subrange(from, to)) <= 65535
}

/// `s` is the text of a version whose dot stands at `dot`: digits, a dot,
/// digits, each number fitting in 16 bits.
pub open spec fn is_version_text(s: Seq<char>, dot: int) -> bool {
    &&& 0 <= dot < s.len()
    &&& s[dot] == '.'
    &&& is_number_text(s, 0, dot)
    &&& is_number_text(s, dot + 1, s.len() as int)
}

/// The number written in `s` from `from` to `to`, where it is a non-empty run of
/// digits that fits in 16 bits.
fn parse_number(s: &str, from: usize, to: usize) -> (r: Option<u16>)
    requires
        from <= to <= s@.len(),
    ensures
        r is Some <==> is_number_text(s@, from as int, to as int),
        r matches Some(n) ==> n as nat == digits_value(s@.subrange(from as int, to as int)),
{
    if from == to {
        return None;
    }
    let mut acc: u32 = 0;
    let mut i: usize = from;
    while i < to
        invariant
            from <= i <= to <= s@.len(),
            all_digits(s@.subrange(from as int, i as int)),
            acc == (if digits_value(s@.subrange(from as int, i as int)) > 65535 {
                65536
            } else {
                digits_value(s@.subrange(from as int, i as int))
            }),
        decreases to - i,
    {
        let c = s.get_char(i);
        let prev = Ghost(s@.subrange(from as int, i as int));
        let next = Ghost(s@.subrange(from as int, i as int + 1));
        assert(next@.drop_last() =~= prev@);
        assert(next@.last() == c);
        if !('0' <= c && c <= '9') {
            assert(!is_digit(s@.subrange(from as int, to as int)[i - from]));
            return None;
        }
        let d: u32 = c as u32 - '0' as u32;
        assert(digits_value(next@) == digits_value(prev@) * 10 + d);
        if acc == 65536 {
            assert(digits_value(prev@) * 10 + d > 65535) by (nonlinear_arith)
                requires
                    digits_value(prev@) > 65535,
            ;
        } else {
            let v = acc * 10 + d;
            acc = if v > 65535 {
                65536
            } else {
                v
            };
        }
        i = i + 1;
    }
    if acc > 65535 {
        None
    } else {
        Some(acc as u16)
    }
}

/// The decimal digits of `n` are digits, at least one, and read back as `n`.
pub proof fn lemma_decimal_reads_back(n: nat)
    ensures
        all_digits(decimal(n)),
        digits_value(decimal(n)) == n,
        decimal(n).len() >= 1,
    decreases n,
{
    lemma_digit_char(n % 10);
    if n >= 10 {
        lemma_decimal_reads_back(n / 10);
        let d = decimal(n);
        assert(n == (n / 10) * 10 + n % 10);
        assert(d.drop_last() =~= decimal(n / 10));
        assert(d.last() == digit_char(n % 10));
        assert(digits_value(d) == digits_value(decimal(n / 10)) * 10 + n % 10);
        assert forall|i: int| 0 <= i < d.len() implies is_digit(#[trigger] d[i]) by {
            if i < d.len() - 1 {
                assert(d[i] == decimal(n / 10)[i]);
            }
        }
    } else {
        assert(decimal(n).drop_last() =~= Seq::<char>::empty());
        assert(digits_value(Seq::<char>::empty()) == 0);
        assert(digits_value(decimal(n)) == 0 * 10 + n);
    }
}

/// The character of a digit is a digit character, and reads back as the digit.
pub proof fn lemma_digit_char(d: nat)
    requires
        d < 10,
    ensures
        is_digit(digit_char(d)),
        (digit_char(d) as u32 - '0' as u32) as nat == d,
{
    if d == 0 {
    } else if d == 1 {
    } else if d == 2 {
    } else if d == 3 {
    } else if d == 4 {
    } else if d == 5 {
    } else if d == 6 {
    } else if d == 7 {
    } else if d == 8 {
    } else {
    }
}

/// What a service advertises about its versions: the oldest and the newest it
/// accepts, each of which may be unknown.
#[derive(PartialEq, Eq, Structural, Clone, Copy, Debug)]
pub struct ServiceInfo {
    pub minimum_version: Option<ApiVersion>,
    pub current_version: Option<ApiVersion>,
}

impl ServiceInfo {
    /// The bound written in `text`: none where the text is empty, else the
    /// version it holds; a `DiscoveryError` where it holds none.
    pub open spec fn bound_of(text: Seq<char>, r: Result<Option<ApiVersion>, Error>) -> bool {
        if text.len() == 0 {
            r == Ok::<Option<ApiVersion>, Error>(None)
        } else if exists|dot: int| is_version_text(text, dot) {
            r matches Ok(Some(v)) && forall|dot: int|
                #[trigger] is_version_text(text, dot) ==> v.0 as nat == digits_value(text.subrange(0, dot))
                    && v.1 as nat == digits_value(text.subrange(dot + 1, text.len() as int))
        } else {
            r is Err && r->Err_0 is DiscoveryError
        }
    }

    /// `text` is empty or the text of a version.
    pub open spec fn readable_bound(text: Seq<char>) -> bool {
        text.len() == 0 || exists|dot: int| is_version_text(text, dot)
    }

    /// Reads one advertised bound: empty text means no bound.
    fn read_bound(text: &str) -> (r: Result<Option<ApiVersion>, Error>)
        ensures
            Self::bound_of(text@, r),
    {
        if text.unicode_len() == 0 {
            Ok(None)
        } else {
            match ApiVersion::parse(text) {
                Some(v) => Ok(Some(v)),
                None => Err(Error::DiscoveryError(String::from_str("malformed API version in service metadata"))),
            }
        }
    }

    /// The service info advertised as the texts of its oldest and newest
    /// versions, where an empty text means that bound is not given; a
    /// `DiscoveryError` where a non-empty text is not a version.
    pub fn from_texts(minimum: &str, current: &str) -> (r: Result<ServiceInfo, Error>)
        ensures
            r is Ok <==> Self::readable_bound(minimum@) && Self::readable_bound(current@),
            r is Err ==> r->Err_0 is DiscoveryError,
            r matches Ok(info) ==> Self::bound_of(minimum@, Ok(info.minimum_version))
                && Self::bound_of(current@, Ok(info.current_version)),
    {
        let lo = Self::read_bound(minimum);
        let hi = Self::read_bound(current);
        match (lo, hi) {
            (Ok(minimum_version), Ok(current_version)) => Ok(ServiceInfo { minimum_version, current_version }),
            (Err(e), _) => Err(e),
            (_, Err(e)) => Err(e),
        }
    }

    /// The versions the service accepts: those within its advertised bounds.
    /// A service that advertises no bound accepts no version.
    pub open spec fn accepts(self, v: ApiVersion) -> bool {
        match (self.minimum_version, self.current_version) {
            (Some(min), Some(max)) => min.at_most(v) && v.at_most(max),
            (None, Some(max)) => v.at_most(max),
            (Some(min), None) => min.at_most(v),
            (None, None) => false,
        }
    }

    /// Whether the service accepts version `v`.
    pub fn supports_api_version(&self, v: ApiVersion) -> (r: bool)
        ensures
            r == self.accepts(v),
    {
        match (self.minimum_version, self.current_version) {
            (Some(min), Some(max)) => min.is_at_most(&v) && v.is_at_most(&max),
            (None, Some(max)) => v.is_at_most(&max),
            (Some(min), None) => min.is_at_most(&v),
            (None, None) => false,
        }
    }

    /// `r` is the highest of `candidates` that the service accepts, or `None`
    /// where it accepts none of them.
    pub open spec fn is_best_pick(self, candidates: Seq<ApiVersion>, r: Option<ApiVersion>) -> bool {
        match r {
            None => forall|i: int| 0 <= i < candidates.len() ==> !self.accepts(#[trigger] candidates[i]),
            Some(v) => {
                &&& self.accepts(v)
                &&& exists|i: int| 0 <= i < candidates.len() && candidates[i] == v
                &&& forall|i: int|
                    0 <= i < candidates.len() && self.accepts(#[trigger] candidates[i])
                        ==> candidates[i].at_most(v)
            },
        }
    }

    /// The highest of `candidates` that the service accepts, whatever their
    /// order, or `None` where it accepts none of them.
    pub fn pick_api_version(&self, candidates: &[ApiVersion]) -> (r: Option<ApiVersion>)
        ensures
            self.is_best_pick(candidates@, r),
    {
        let mut best: Option<ApiVersion> = None;
        let mut i: usize = 0;
        while i < candidates.len()
            invariant
                i <= candidates.len(),
                self.is_best_pick(candidates@.subrange(0, i as int), best),
            decreases candidates.len() - i,
        {
            let v = candidates[i];
            proof {
                let prev = candidates@.subrange(0, i as int);
                let next = candidates@.subrange(0, i as int + 1);
                assert forall|j: int| 0 <= j < i implies next[j] == prev[j] by {}
                assert(next[i as int] == v);
            }
            if self.supports_api_version(v) {
                match best {
                    None => {
                        best = Some(v);
                    },
                    Some(b) => {
                        if !v.is_at_most(&b) {
                            best = Some(v);
                        }
                    },
                }
            }
            proof {
                let prev = candidates@.subrange(0, i as int);
                let next = candidates@.subrange(0, i as int + 1);
                match best {
                    None => {},
                    Some(b) => {
                        if b == v {
                            assert(next[i as int] == b);
                        } else {
                            let j = choose|j: int| 0 <= j < prev.len() && prev[j] == b;
                            assert(next[j] == b);
                        }
                    },
                }
            }
            i = i + 1;
        }
        assert(candidates@.subrange(0, candidates.len() as int) =~= candidates@);
        best
    }
}

/// The supported versions of one service, remembered for a session: unknown
/// until the service's metadata has been obtained once.
#[derive(Clone, Copy, Debug)]
pub struct VersionRegistry {
    pub info: Option<ServiceInfo>,
}

impl VersionRegistry {
    /// A registry that knows nothing yet.
    pub fn new() -> (r: VersionRegistry)
        ensures
            r.info is None,
    {
        VersionRegistry { info: None }
    }

    /// A registry that knows `info`.
    pub fn with_info(info: ServiceInfo) -> (r: VersionRegistry)
        ensures
            r.info == Some(info),
    {
        VersionRegistry { info: Some(info) }
    }

    /// Remembers `info` unless metadata is already known: the first value
    /// stays, so obtaining it twice is harmless.
    pub fn remember(&mut self, info: ServiceInfo)
        ensures
            final(self).info == (match old(self).info {
                Some(known) => Some(known),
                None => Some(info),
            }),
    {
        if self.info.is_none() {
            self.info = Some(info);
        }
    }

    /// The highest of `versions` that the service supports, or `None` where it
    /// supports none of them; a `DiscoveryError` where its metadata is unknown.
    pub fn pick_compute_api_version(&self, versions: &[ApiVersion]) -> (r: Result<
        Option<ApiVersion>,
        Error,
    >)
        ensures
            r is Err <==> self.info is None,
            r is Err ==> r->Err_0 is DiscoveryError,
            r matches Ok(p) ==> self.info->0.is_best_pick(versions@, p),
    {
        match &self.info {
            None => Err(Error::DiscoveryError(String::from_str("supported API versions are unknown"))),
            Some(info) => Ok(info.pick_api_version(versions)),
        }
    }

    /// Whether the service supports `version`; a `DiscoveryError` where its
    /// metadata is unknown.
    pub fn supports_compute_api_version(&self, version: ApiVersion) -> (r: Result<bool, Error>)
        ensures
            r is Err <==> self.info is None,
            r is Err ==> r->Err_0 is DiscoveryError,
            r matches Ok(b) ==> b == self.info->0.accepts(version),
    {
        match &self.info {
            None => Err(Error::DiscoveryError(String::from_str("supported API versions are unknown"))),
            Some(info) => Ok(info.supports_api_version(version)),
        }
    }
}

/// The order of versions is antisymmetric: two versions each at most the
/// other are the same version.
pub proof fn lemma_at_most_antisymmetric(a: ApiVersion, b: ApiVersion)
    requires
        a.at_most(b),
        b.at_most(a),
    ensures
        a == b,
{
}

/// The pick among candidates is determined by the candidates and the
/// service: the highest supported candidate, whatever their order, or none.
pub proof fn pick_is_unique(info: ServiceInfo, candidates: Seq<ApiVersion>, r1: Option<ApiVersion>, r2: Option<ApiVersion>)
    requires
        info.is_best_pick(candidates, r1),
        info.is_best_pick(candidates, r2),
    ensures
        r1 == r2,
{
    match (r1, r2) {
        (Some(a), Some(b)) => {
            let i = choose|i: int| 0 <= i < candidates.len() && candidates[i] == a;
            let j = choose|j: int| 0 <= j < candidates.len() && candidates[j] == b;
            assert(candidates[i].at_most(b));
            assert(candidates[j].at_most(a));
            lemma_at_most_antisymmetric(a, b);
        },
        (Some(a), None) => {
            let i = choose|i: int| 0 <= i < candidates.len() && candidates[i] == a;
            assert(!info.accepts(candidates[i]));
        },
        (None, Some(b)) => {
            let j = choose|j: int| 0 <= j < candidates.len() && candidates[j] == b;
            assert(!info.accepts(candidates[j]));
        },
        (None, None) => {},
    }
}

/// Reordering the candidates does not change the pick.
pub proof fn pick_ignores_order(
    info: ServiceInfo,
    candidates: Seq<ApiVersion>,
    reordered: Seq<ApiVersion>,
    r: Option<ApiVersion>,
)
    requires
        info.is_best_pick(candidates, r),
        candidates.to_set() == reordered.to_set(),
    ensures
        info.is_best_pick(reordered, r),
{
    assert forall|x: ApiVersion| candidates.contains(x) <==> reordered.contains(x) by {
        assert(candidates.to_set().contains(x) <==> candidates.contains(x));
        assert(reordered.to_set().contains(x) <==> reordered.contains(x));
    }
    match r {
        None => {
            assert forall|i: int| 0 <= i < reordered.len() implies !info.accepts(#[trigger] reordered[i]) by {
                assert(reordered.contains(reordered[i]));
                assert(candidates.contains(reordered[i]));
            }
        },
        Some(v) => {
            let i = choose|i: int| 0 <= i < candidates.len() && candidates[i] == v;
            assert(candidates.contains(v));
            assert(reordered.contains(v));
            assert forall|k: int|
                0 <= k < reordered.len() && info.accepts(#[trigger] reordered[k]) implies reordered[k].at_most(v) by {
                assert(reordered.contains(reordered[k]));
                assert(candidates.contains(reordered[k]));
            }
        },
    }
}

/// The text of a version reads back as that version: its dot stands right
/// after the major number, and both numbers read back.
pub proof fn text_parses_back(v: ApiVersion)
    ensures
        is_version_text(v.text(), decimal(v.0 as nat).len() as int),
        forall|dot: int|
            #[trigger] is_version_text(v.text(), dot) ==> v.0 as nat == digits_value(v.text().subrange(0, dot))
                && v.1 as nat == digits_value(v.text().subrange(dot + 1, v.text().len() as int)),
{
    let a = decimal(v.0 as nat);
    let b = decimal(v.1 as nat);
    let t = v.text();
    lemma_decimal_reads_back(v.0 as nat);
    lemma_decimal_reads_back(v.1 as nat);
    let dot = a.len() as int;
    assert(t[dot] == '.');
    assert(t.subrange(0, dot) =~= a);
    assert(t.subrange(dot + 1, t.len() as int) =~= b);
    assert forall|k: int| #[trigger] is_version_text(t, k) implies k == dot by {
        if k < dot {
            assert(is_digit(a[k]));
            assert(t[k] == a[k]);
        } else if k > dot {
            assert(t.subrange(0, k)[dot] == t[dot]);
        }
    }
}

} // verus!
