//! Interface and namespace names: regex selection and lexicographic order.
use vstd::prelude::*;

verus! {

#[verifier::external_type_specification]
#[verifier::external_body]
pub struct ExRegex(regex::Regex);

#[verifier::external_type_specification]
#[verifier::external_body]
pub struct ExRegexError(regex::Error);

/// Whether `regex::Regex::new` accepts a pattern.
pub uninterp spec fn regex_valid(pattern: Seq<char>) -> bool;

/// Whether the regex compiled from `pattern` matches anywhere in `text`.
pub uninterp spec fn regex_match(pattern: Seq<char>, text: Seq<char>) -> bool;

/// A compiled pattern, together with the text it was compiled from.
pub struct NameRegex {
    pattern: String,
    inner: regex::Regex,
}

impl NameRegex {
    /// The text the regex was compiled from.
    pub closed spec fn source(&self) -> Seq<char> {
        self.pattern@
    }

    /// Whether the regex matches anywhere in `text`.
    pub fn is_match(&self, text: &str) -> (r: bool)
        ensures
            r == regex_match(self.source(), text@),
    {
        regex_is_match(self, text)
    }
}

/// Relies on `regex::Regex::new`: whether a pattern compiles depends on the
/// pattern alone.
#[verifier::external_body]
fn regex_compile(pattern: &String) -> (r: Result<NameRegex, regex::Error>)
    ensures
        r is Ok == regex_valid(pattern@),
        r matches Ok(n) ==> n.source() == pattern@,
{
    match regex::Regex::new(pattern.as_str()) {
        Ok(inner) => Ok(NameRegex { pattern: pattern.clone(), inner }),
        Err(e) => Err(e),
    }
}

/// Relies on `regex::Regex::is_match`: true if and only if the regex matches
/// somewhere in the text, which depends on the pattern and the text alone.
#[verifier::external_body]
fn regex_is_match(re: &NameRegex, text: &str) -> (r: bool)
    ensures
        r == regex_match(re.source(), text@),
{
    re.inner.is_match(text)
}

/// Compiles a pattern; `None` when the regex crate refuses it.
pub fn compile(pattern: &String) -> (r: Option<NameRegex>)
    ensures
        r is Some == regex_valid(pattern@),
        r matches Some(n) ==> n.source() == pattern@,
{
    match regex_compile(pattern) {
        Ok(n) => Some(n),
        Err(_) => None,
    }
}

/// A network interface as the capture units see it.
#[derive(Clone, Debug)]
pub struct Link {
    pub if_index: u32,
    pub name: String,
    pub mac: u64,
}

impl Link {
    /// A copy equal to this link.
    pub fn duplicate(&self) -> (r: Link)
        ensures
            r == *self,
    {
        Link { if_index: self.if_index, name: self.name.clone(), mac: self.mac }
    }
}

/// The links, in their order, whose names the pattern matches.
pub open spec fn matching_links(pattern: Seq<char>, links: Seq<Link>) -> Seq<Link>
    decreases links.len(),
{
    if links.len() == 0 {
        Seq::empty()
    } else {
        let prev = matching_links(pattern, links.drop_last());
        if regex_match(pattern, links.last().name@) {
            prev.push(links.last())
        } else {
            prev
        }
    }
}

/// The tap interfaces that an interface pattern selects: the matching links
/// in their order, or none when the pattern does not compile.
pub open spec fn selected_links(pattern: Seq<char>, links: Seq<Link>) -> Seq<Link> {
    if regex_valid(pattern) {
        matching_links(pattern, links)
    } else {
        Seq::empty()
    }
}

/// The links whose names match a compiled regex.
pub fn filter_links(re: &NameRegex, links: &Vec<Link>) -> (r: Vec<Link>)
    ensures
        r@ == matching_links(re.source(), links@),
{
    let mut r: Vec<Link> = Vec::new();
    let mut i: usize = 0;
    while i < links.len()
        invariant
            i <= links.len(),
            r@ == matching_links(re.source(), links@.subrange(0, i as int)),
        decreases links.len() - i,
    {
        let ghost before = links@.subrange(0, i as int);
        proof {
            assert(links@.subrange(0, i + 1).drop_last() =~= before);
        }
        if re.is_match(links[i].name.as_str()) {
            r.push(links[i].duplicate());
        }
        i = i + 1;
    }
    proof {
        assert(links@.subrange(0, links.len() as int) =~= links@);
    }
    r
}

/// Resolves the tap interfaces of a capture unit: the links whose names
/// match `pattern`, or none when the pattern does not compile.
pub fn select_links(pattern: &String, links: &Vec<Link>) -> (r: Vec<Link>)
    ensures
        r@ == selected_links(pattern@, links@),
{
    match compile(pattern) {
        Some(re) => filter_links(&re, links),
        None => Vec::new(),
    }
}

/// Strict lexicographic order on names.
pub open spec fn name_lt(a: Seq<char>, b: Seq<char>) -> bool
    decreases a.len(),
{
    if b.len() == 0 {
        false
    } else if a.len() == 0 {
        true
    } else if a[0] != b[0] {
        (a[0] as int) < (b[0] as int)
    } else {
        name_lt(a.drop_first(), b.drop_first())
    }
}

pub proof fn lemma_name_lt_transitive(a: Seq<char>, b: Seq<char>, c: Seq<char>)
    requires
        name_lt(a, b),
        name_lt(b, c),
    ensures
        name_lt(a, c),
    decreases a.len(),
{
    if a.len() > 0 && a[0] == b[0] && b[0] == c[0] {
        lemma_name_lt_transitive(a.drop_first(), b.drop_first(), c.drop_first());
    }
}

pub proof fn lemma_name_lt_total(a: Seq<char>, b: Seq<char>)
    ensures
        name_lt(a, b) || name_lt(b, a) || a == b,
    decreases a.len(),
{
    if a.len() > 0 && b.len() > 0 && a[0] == b[0] {
        lemma_name_lt_total(a.drop_first(), b.drop_first());
        if a.drop_first() == b.drop_first() {
            assert(a =~= seq![a[0]] + a.drop_first());
            assert(b =~= seq![b[0]] + b.drop_first());
        }
    } else if a.len() > 0 && b.len() > 0 {
        assert((a[0] as int) != (b[0] as int));
    } else if a.len() == 0 && b.len() == 0 {
        assert(a =~= b);
    }
}

/// Compares two names in strict lexicographic order of their characters.
pub fn less_than(a: &str, b: &str) -> (r: bool)
    ensures
        r == name_lt(a@, b@),
{
    let la = a.unicode_len();
    let lb = b.unicode_len();
    let mut i: usize = 0;
    proof {
        assert(a@.subrange(0, la as int) =~= a@);
        assert(b@.subrange(0, lb as int) =~= b@);
        assert(a@.subrange(0, 0) =~= b@.subrange(0, 0));
    }
    while i < la && i < lb
        invariant
            la == a@.len(),
            lb == b@.len(),
            i <= la,
            i <= lb,
            a@.subrange(0, i as int) == b@.subrange(0, i as int),
            name_lt(a@, b@) == name_lt(a@.subrange(i as int, la as int), b@.subrange(i as int, lb as int)),
        decreases la - i,
    {
        let ca = a.get_char(i);
        let cb = b.get_char(i);
        let ghost sa = a@.subrange(i as int, la as int);
        let ghost sb = b@.subrange(i as int, lb as int);
        if ca != cb {
            proof {
                assert(sa[0] == ca && sb[0] == cb);
            }
            return (ca as u32) < (cb as u32);
        }
        proof {
            assert(sa.drop_first() =~= a@.subrange(i + 1, la as int));
            assert(sb.drop_first() =~= b@.subrange(i + 1, lb as int));
            assert(a@.subrange(0, i + 1) =~= a@.subrange(0, i as int).push(ca));
            assert(b@.subrange(0, i + 1) =~= b@.subrange(0, i as int).push(cb));
        }
        i = i + 1;
    }
    i < lb
}

/// Names in strictly increasing order.
pub open spec fn strictly_sorted(s: Seq<Seq<char>>) -> bool {
    forall|i: int, j: int| 0 <= i < j < s.len() ==> name_lt(#[trigger] s[i], #[trigger] s[j])
}

/// Inserts `name` into a strictly sorted list, unless it is already there.
fn insert_sorted(sorted: &mut Vec<String>, name: String)
    requires
        strictly_sorted(old(sorted).deep_view()),
    ensures
        strictly_sorted(final(sorted).deep_view()),
        forall|x: Seq<char>|
            final(sorted).deep_view().contains(x) <==> (old(sorted).deep_view().contains(x)
                || x == name@),
{
    let ghost s0 = sorted.deep_view();
    let mut i: usize = 0;
    while i < sorted.len()
        invariant
            i <= sorted.len(),
            sorted.deep_view() == s0,
            strictly_sorted(s0),
            forall|j: int| 0 <= j < i ==> name_lt(#[trigger] s0[j], name@),
        ensures
            i <= sorted.len(),
            forall|j: int| 0 <= j < i ==> name_lt(#[trigger] s0[j], name@),
            i < sorted.len() ==> !name_lt(s0[i as int], name@),
        decreases sorted.len() - i,
    {
        if !less_than(sorted[i].as_str(), name.as_str()) {
            break;
        }
        i = i + 1;
    }
    if i < sorted.len() && sorted[i] == name {
        proof {
            assert(s0[i as int] == name@);
        }
        return;
    }
    proof {
        if i < sorted.len() {
            lemma_name_lt_total(s0[i as int], name@);
            assert(name_lt(name@, s0[i as int]));
            assert forall|j: int| i <= j < s0.len() implies name_lt(name@, #[trigger] s0[j]) by {
                if j > i {
                    lemma_name_lt_transitive(name@, s0[i as int], s0[j]);
                }
            }
        }
    }
    sorted.insert(i, name);
    proof {
        let s1 = sorted.deep_view();
        assert(s1 =~= s0.insert(i as int, name@));
        assert forall|x: Seq<char>| s1.contains(x) <==> (s0.contains(x) || x == name@) by {
            if s0.contains(x) {
                let k = choose|k: int| 0 <= k < s0.len() && s0[k] == x;
                if k < i {
                    assert(s1[k] == x);
                } else {
                    assert(s1[k + 1] == x);
                }
            }
            if x == name@ {
                assert(s1[i as int] == x);
            }
            if s1.contains(x) {
                let k = choose|k: int| 0 <= k < s1.len() && s1[k] == x;
                if k < i {
                    assert(s0[k] == x);
                } else if k > i {
                    assert(s0[k - 1] == x);
                }
            }
        }
    }
}

/// The namespace names that match a compiled regex, without repeats, in
/// increasing order.
pub fn matching_names_sorted(re: &NameRegex, names: &Vec<String>) -> (r: Vec<String>)
    ensures
        strictly_sorted(r.deep_view()),
        forall|x: Seq<char>|
            r.deep_view().contains(x) <==> (names.deep_view().contains(x) && regex_match(
                re.source(),
                x,
            )),
{
    let mut r: Vec<String> = Vec::new();
    let mut i: usize = 0;
    proof {
        assert(r.deep_view() =~= Seq::<Seq<char>>::empty());
    }
    while i < names.len()
        invariant
            i <= names.len(),
            strictly_sorted(r.deep_view()),
            forall|x: Seq<char>|
                r.deep_view().contains(x) <==> (names.deep_view().subrange(0, i as int).contains(x)
                    && regex_match(re.source(), x)),
        decreases names.len() - i,
    {
        let ghost prefix = names.deep_view().subrange(0, i as int);
        let ghost next = names.deep_view().subrange(0, i + 1);
        proof {
            assert(next =~= prefix.push(names@[i as int]@));
            assert forall|x: Seq<char>| next.contains(x) <==> (prefix.contains(x) || x
                == names@[i as int]@) by {
                if next.contains(x) {
                    let k = choose|k: int| 0 <= k < next.len() && next[k] == x;
                    if k < i {
                        assert(prefix[k] == x);
                    }
                }
                if prefix.contains(x) {
                    let k = choose|k: int| 0 <= k < prefix.len() && prefix[k] == x;
                    assert(next[k] == x);
                }
                if x == names@[i as int]@ {
                    assert(next[i as int] == x);
                }
            }
        }
        if re.is_match(names[i].as_str()) {
            insert_sorted(&mut r, names[i].clone());
        }
        i = i + 1;
    }
    proof {
        assert(names.deep_view().subrange(0, names.len() as int) =~= names.deep_view());
    }
    r
}

} // verus!
