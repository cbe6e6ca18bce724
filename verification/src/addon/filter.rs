//! Domain filtering: a mode, a set of bare host names, and the yes/no answer
//! for a host that may carry a port.

use crate::response::blocked;
use crate::response::ProxyResponse;
use vstd::prelude::*;
use vstd::std_specs::iter::IteratorSpec;

verus! {

/// How membership in the domain set is read.
#[derive(Clone, Copy, Debug, PartialEq, Eq, Structural)]
pub enum FilterMode {
    /// Listed domains are refused, every other domain is let through.
    Blacklist,
    /// Listed domains are let through, every other domain is refused.
    Whitelist,
}

/// Number of characters of `host` that stand before its first `':'`; the
/// whole length when `host` holds none.
pub open spec fn domain_len(host: Seq<char>) -> nat
    decreases host.len(),
{
    if host.len() == 0 || host[0] == ':' {
        0
    } else {
        1 + domain_len(host.drop_first())
    }
}

/// The domain of `host`: what stands before the first `':'`.
pub open spec fn domain_part(host: Seq<char>) -> Seq<char> {
    host.take(domain_len(host) as int)
}

/// `domain_len` never runs past the end of the host.
pub proof fn lemma_domain_len_bound(host: Seq<char>)
    ensures
        domain_len(host) <= host.len(),
    decreases host.len(),
{
    if host.len() != 0 && host[0] != ':' {
        lemma_domain_len_bound(host.drop_first());
    }
}

/// A position `k` that has no `':'` before it, and that is either the end of
/// `host` or holds a `':'`, is where the domain of `host` ends.
pub proof fn lemma_domain_len_is(host: Seq<char>, k: int)
    requires
        0 <= k <= host.len(),
        forall|j: int| 0 <= j < k ==> host[j] != ':',
        k == host.len() || host[k] == ':',
    ensures
        domain_len(host) == k,
    decreases host.len(),
{
    if k > 0 {
        let rest = host.drop_first();
        assert(host[0] != ':');
        assert forall|j: int| 0 <= j < k - 1 implies rest[j] != ':' by {
            assert(rest[j] == host[j + 1]);
        }
        lemma_domain_len_is(rest, k - 1);
    }
}

/// The domain of `host` holds no `':'`.
pub proof fn lemma_domain_part_has_no_colon(host: Seq<char>)
    ensures
        !domain_part(host).contains(':'),
    decreases host.len(),
{
    lemma_domain_len_bound(host);
    if host.len() != 0 && host[0] != ':' {
        let rest = host.drop_first();
        lemma_domain_part_has_no_colon(rest);
        lemma_domain_len_bound(rest);
        let domain = domain_part(host);
        assert forall|i: int| 0 <= i < domain.len() implies domain[i] != ':' by {
            if i > 0 {
                assert(domain[i] == domain_part(rest)[i - 1]);
            }
        }
    }
}

/// The domain of `host` as a slice of it.
pub fn domain_of(host: &str) -> (domain: &str)
    ensures
        domain@ == domain_part(host@),
{
    let n: usize = host.unicode_len();
    let mut rest = host.chars();
    let mut i: usize = 0;
    loop
        invariant_except_break
            n == host@.len(),
            i <= n,
            rest.remaining() == host@.skip(i as int),
            forall|j: int| 0 <= j < i ==> host@[j] != ':',
        ensures
            i <= host@.len(),
            forall|j: int| 0 <= j < i ==> host@[j] != ':',
            i == host@.len() || host@[i as int] == ':',
        decreases n - i,
    {
        match rest.next() {
            Some(c) => {
                if c == ':' {
                    break;
                }
                i += 1;
            },
            None => {
                break;
            },
        }
    }
    proof {
        lemma_domain_len_is(host@, i as int);
    }
    host.substring_char(0, i)
}

/// What a filter is, apart from how it is stored: its mode and its domains.
pub struct FilterModel {
    pub mode: FilterMode,
    pub domains: Set<Seq<char>>,
}

impl FilterModel {
    /// Whether a request for `host` may go on. The port, if `host` carries
    /// one, plays no part: only the domain is looked up.
    pub open spec fn allows(self, host: Seq<char>) -> bool {
        match self.mode {
            FilterMode::Blacklist => !self.domains.contains(domain_part(host)),
            FilterMode::Whitelist => self.domains.contains(domain_part(host)),
        }
    }
}

/// The set of names that a list of strings holds.
pub open spec fn names(list: Seq<String>) -> Set<Seq<char>> {
    Set::new(|d: Seq<char>| exists|i: int| 0 <= i < list.len() && list[i]@ == d)
}

/// No two entries of `list` spell the same name.
pub open spec fn distinct(list: Seq<String>) -> bool {
    forall|i: int, j: int| 0 <= i < j < list.len() ==> list[i]@ != list[j]@
}

/// A filter mode together with the domains it applies to. Built once and
/// only read afterwards.
pub struct FilterRules {
    mode: FilterMode,
    domains: Vec<String>,
}

impl View for FilterRules {
    type V = FilterModel;

    closed spec fn view(&self) -> FilterModel {
        FilterModel { mode: self.mode, domains: names(self.domains@) }
    }
}

/// One more entry at the end of a list adds its name to the set.
proof fn lemma_names_push(list: Seq<String>, last: String)
    ensures
        names(list.push(last)) == names(list).insert(last@),
{
    let longer = list.push(last);
    assert forall|d: Seq<char>| names(longer).contains(d) == names(list).insert(last@).contains(
        d,
    ) by {
        if names(longer).contains(d) {
            let i = choose|i: int| 0 <= i < longer.len() && longer[i]@ == d;
            if i < list.len() {
                assert(list[i]@ == d);
            }
        }
        if names(list).contains(d) {
            let i = choose|i: int| 0 <= i < list.len() && list[i]@ == d;
            assert(longer[i]@ == d);
        }
        if d == last@ {
            assert(longer[list.len() as int]@ == d);
        }
    }
    assert(names(longer) =~= names(list).insert(last@));
}

/// A list without repeated names holds as many names as it has entries.
proof fn lemma_names_count(list: Seq<String>)
    requires
        distinct(list),
    ensures
        names(list).finite(),
        names(list).len() == list.len(),
{
    let texts = list.map_values(|s: String| s@);
    assert(texts.no_duplicates());
    texts.unique_seq_to_set();
    vstd::seq_lib::seq_to_set_is_finite(texts);
    assert forall|d: Seq<char>| names(list).contains(d) == texts.to_set().contains(d) by {
        if names(list).contains(d) {
            let i = choose|i: int| 0 <= i < list.len() && list[i]@ == d;
            assert(texts[i] == d);
        }
        if texts.to_set().contains(d) {
            let i = choose|i: int| 0 <= i < texts.len() && texts[i] == d;
            assert(list[i]@ == d);
        }
    }
    assert(names(list) =~= texts.to_set());
}

/// Whether `list` holds an entry that spells `name`.
fn holds(list: &Vec<String>, name: &String) -> (found: bool)
    ensures
        found == names(list@).contains(name@),
{
    let mut i: usize = 0;
    while i < list.len()
        invariant
            i <= list.len(),
            forall|j: int| 0 <= j < i ==> list[j]@ != name@,
        decreases list.len() - i,
    {
        if list[i] == *name {
            return true;
        }
        i += 1;
    }
    false
}

impl FilterRules {
    /// Every domain is stored once.
    #[verifier::type_invariant]
    spec fn stored_once(&self) -> bool {
        distinct(self.domains@)
    }

    /// A filter of the given mode over the names in `domains`; a name that
    /// occurs again is stored at its first occurrence only.
    fn with_mode(mode: FilterMode, domains: Vec<String>) -> (rules: FilterRules)
        ensures
            rules@ == (FilterModel { mode, domains: names(domains@) }),
    {
        let mut kept: Vec<String> = Vec::new();
        let mut i: usize = 0;
        while i < domains.len()
            invariant
                i <= domains.len(),
                distinct(kept@),
                names(kept@) == names(domains@.take(i as int)),
            decreases domains.len() - i,
        {
            let name = domains[i].clone();
            proof {
                assert(domains@.take(i + 1) =~= domains@.take(i as int).push(name));
                lemma_names_push(domains@.take(i as int), name);
                lemma_names_push(kept@, name);
            }
            if !holds(&kept, &name) {
                kept.push(name);
            } else {
                assert(names(kept@).insert(name@) =~= names(kept@));
            }
            i += 1;
        }
        proof {
            assert(domains@.take(i as int) =~= domains@);
        }
        FilterRules { mode, domains: kept }
    }

    /// A deny-list: the listed domains are refused, all others let through.
    pub fn new_blacklist(domains: Vec<String>) -> (rules: FilterRules)
        ensures
            rules@ == (FilterModel { mode: FilterMode::Blacklist, domains: names(domains@) }),
    {
        Self::with_mode(FilterMode::Blacklist, domains)
    }

    /// An allow-list: the listed domains are let through, all others refused.
    pub fn new_whitelist(domains: Vec<String>) -> (rules: FilterRules)
        ensures
            rules@ == (FilterModel { mode: FilterMode::Whitelist, domains: names(domains@) }),
    {
        Self::with_mode(FilterMode::Whitelist, domains)
    }

    /// The mode that the filter was built with.
    pub fn mode(&self) -> (mode: FilterMode)
        ensures
            mode == self@.mode,
    {
        self.mode
    }

    /// Whether `domain` is one of the filter's domains, taken as it is
    /// given: nothing is stripped from it.
    pub fn contains(&self, domain: &str) -> (listed: bool)
        ensures
            listed == self@.domains.contains(domain@),
    {
        let name = domain.to_string();
        holds(&self.domains, &name)
    }

    /// The number of different domains in the filter.
    pub fn len(&self) -> (count: usize)
        ensures
            self@.domains.finite(),
            count == self@.domains.len(),
    {
        proof {
            use_type_invariant(self);
            lemma_names_count(self.domains@);
        }
        self.domains.len()
    }

    /// The filter's domains, each once.
    pub fn domains(&self) -> (list: Vec<String>)
        ensures
            distinct(list@),
            names(list@) == self@.domains,
    {
        proof {
            use_type_invariant(self);
        }
        let mut list: Vec<String> = Vec::new();
        let mut i: usize = 0;
        while i < self.domains.len()
            invariant
                i <= self.domains.len(),
                list@ =~= self.domains@.take(i as int),
            decreases self.domains.len() - i,
        {
            list.push(self.domains[i].clone());
            i += 1;
        }
        assert(list@ =~= self.domains@);
        list
    }

    /// Whether a request for `host` may go on. `host` may end in `:port`;
    /// only what stands before its first `':'` is looked up.
    pub fn is_allowed(&self, host: &str) -> (allowed: bool)
        ensures
            allowed == self@.allows(host@),
            self@.mode == FilterMode::Blacklist ==> (!allowed <==> self@.domains.contains(
                domain_part(host@),
            )),
            self@.mode == FilterMode::Whitelist ==> (allowed <==> self@.domains.contains(
                domain_part(host@),
            )),
    {
        let domain = domain_of(host).to_string();
        let listed = holds(&self.domains, &domain);
        match self.mode {
            FilterMode::Blacklist => !listed,
            FilterMode::Whitelist => listed,
        }
    }
}

/// A filter gives one answer to one question: two filters of the same mode
/// over the same domains answer alike for hosts of the same domain, however
/// either filter was built and whatever port either host carries. Asking
/// again, of the same filter and for the same host, is the plainest case.
pub proof fn lemma_answer_is_stable(
    first: FilterModel,
    second: FilterModel,
    host: Seq<char>,
    again: Seq<char>,
)
    requires
        first.mode == second.mode,
        first.domains =~= second.domains,
        domain_part(host) == domain_part(again),
    ensures
        first.allows(host) == second.allows(again),
{
}

/// A listed name that holds a `':'` decides nothing: no host has such a
/// domain, so the filter answers as it would without that name.
pub proof fn lemma_entry_with_port_is_idle(rules: FilterModel, entry: Seq<char>, host: Seq<char>)
    requires
        entry.contains(':'),
    ensures
        rules.allows(host) == (FilterModel {
            mode: rules.mode,
            domains: rules.domains.remove(entry),
        }).allows(host),
        rules.allows(host) == (FilterModel {
            mode: rules.mode,
            domains: rules.domains.insert(entry),
        }).allows(host),
{
    lemma_domain_part_has_no_colon(host);
}

/// The response for a request that the filter refused. `host` is repeated
/// in the body as it was given, port included.
pub fn blocked_response(host: &str) -> (response: ProxyResponse)
    ensures
        response@ == blocked(host@),
{
    let mut body = "Access to ".to_string();
    body.append(host);
    body.append(" is blocked by proxy filter rules");
    let mut headers: Vec<(String, String)> = Vec::new();
    headers.push(("Content-Type".to_string(), "text/plain".to_string()));
    let response = ProxyResponse { status: 403, headers, body };
    assert(response@.headers =~= blocked(host@).headers);
    response
}

} // verus!
