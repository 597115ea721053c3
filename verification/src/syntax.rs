//! The parts of an address, and the provider that a mistyped domain may have
//! been meant to name.

use crate::text::chars_of;
use vstd::prelude::*;
use vstd::string::*;

verus! {

/// Syntax information after parsing an email address.
#[derive(Debug, Clone, PartialEq, Eq)]
pub struct SyntaxDetails {
    /// The address as it was given.
    pub input: String,
    /// Is the address syntactically valid?
    pub is_valid_syntax: bool,
    /// The part before the "@".
    pub username: Option<String>,
    /// The part after the "@".
    pub domain: Option<String>,
    /// The address in its normal form.
    pub address: Option<String>,
    /// A well-known mail provider that the domain may have been meant to
    /// name. Set only after the lookup of the domain's mail servers or the
    /// probe of the mail server has failed.
    pub suggestion: Option<String>,
}

impl SyntaxDetails {
    /// A valid address has all of its parts.
    pub open spec fn well_formed(&self) -> bool {
        self.is_valid_syntax ==> self.username is Some && self.domain is Some && self.address is Some
    }
}

/// How far a domain may be from a provider's name and still be taken for it.
pub const MAX_PROVIDER_DISTANCE: usize = 2;

/// The mail providers that a domain is compared with, in the order in which
/// they are tried.
pub open spec fn mail_providers() -> Seq<Seq<char>> {
    seq!["gmail.com"@, "yahoo.com"@, "hotmail.com"@, "outlook.com"@]
}

/// The least of three numbers.
pub open spec fn min3(a: nat, b: nat, c: nat) -> nat {
    if a <= b && a <= c {
        a
    } else if b <= c {
        b
    } else {
        c
    }
}

/// The edit distance of two texts: the least number of characters to insert,
/// to delete or to replace that turns `a` into `b`.
pub open spec fn edit_distance(a: Seq<char>, b: Seq<char>) -> nat
    decreases a.len() + b.len(),
{
    if a.len() == 0 {
        b.len()
    } else if b.len() == 0 {
        a.len()
    } else {
        min3(
            edit_distance(a.drop_last(), b) + 1,
            edit_distance(a, b.drop_last()) + 1,
            edit_distance(a.drop_last(), b.drop_last()) + if a.last() == b.last() {
                0nat
            } else {
                1nat
            },
        )
    }
}

/// Some provider lies within the accepted distance of `domain`.
pub open spec fn has_similar_provider(providers: Seq<Seq<char>>, domain: Seq<char>) -> bool {
    exists|j: int|
        0 <= j < providers.len() && edit_distance(domain, #[trigger] providers[j])
            <= MAX_PROVIDER_DISTANCE
}

/// The provider at position `best` lies within the accepted distance of
/// `domain`, no provider lies nearer, and none before it lies as near.
pub open spec fn is_closest_provider(providers: Seq<Seq<char>>, domain: Seq<char>, best: int) -> bool {
    &&& 0 <= best < providers.len()
    &&& edit_distance(domain, providers[best]) <= MAX_PROVIDER_DISTANCE
    &&& forall|j: int|
        0 <= j < providers.len() ==> edit_distance(domain, providers[best]) <= edit_distance(
            domain,
            #[trigger] providers[j],
        )
    &&& forall|j: int|
        0 <= j < best ==> edit_distance(domain, providers[best]) < edit_distance(
            domain,
            #[trigger] providers[j],
        )
}

/// The edit distance is at most the length of the longer text.
pub proof fn lemma_edit_distance_bound(a: Seq<char>, b: Seq<char>)
    ensures
        edit_distance(a, b) <= a.len() || edit_distance(a, b) <= b.len(),
    decreases a.len() + b.len(),
{
    if a.len() != 0 && b.len() != 0 {
        lemma_edit_distance_bound(a.drop_last(), b.drop_last());
    }
}

/// The edit distance of two texts.
pub fn levenshtein(a: &Vec<char>, b: &Vec<char>) -> (d: usize)
    ensures
        d == edit_distance(a@, b@),
{
    let n: usize = a.len();
    let m: usize = b.len();
    let mut prev: Vec<u128> = Vec::new();
    prev.push(0);
    let mut j: usize = 0;
    while j < m
        invariant
            j <= m,
            m == b.len(),
            prev.len() == j + 1,
            forall|k: int| 0 <= k <= j ==> prev@[k] == k,
        decreases m - j,
    {
        prev.push((j as u128) + 1);
        j += 1;
    }
    assert forall|k: int| 0 <= k <= m implies prev@[k] == edit_distance(
        a@.take(0),
        #[trigger] b@.take(k),
    ) by {
        assert(a@.take(0).len() == 0);
    }
    let mut i: usize = 0;
    while i < n
        invariant
            i <= n,
            n == a.len(),
            m == b.len(),
            prev.len() == m + 1,
            forall|k: int|
                0 <= k <= m ==> prev@[k] == edit_distance(a@.take(i as int), #[trigger] b@.take(k)),
        decreases n - i,
    {
        let ghost upper = a@.take(i + 1);
        let ghost lower = a@.take(i as int);
        let mut cur: Vec<u128> = Vec::new();
        cur.push((i as u128) + 1);
        proof {
            assert(upper.drop_last() =~= lower);
            assert(b@.take(0).len() == 0);
        }
        let mut j: usize = 0;
        while j < m
            invariant
                j <= m,
                i < n,
                n == a.len(),
                m == b.len(),
                prev.len() == m + 1,
                cur.len() == j + 1,
                upper == a@.take(i + 1),
                lower == a@.take(i as int),
                forall|k: int|
                    0 <= k <= m ==> prev@[k] == edit_distance(lower, #[trigger] b@.take(k)),
                forall|k: int|
                    0 <= k <= j ==> cur@[k] == edit_distance(upper, #[trigger] b@.take(k)),
            decreases m - j,
        {
            let ghost right = b@.take(j + 1);
            let ghost left = b@.take(j as int);
            proof {
                assert(upper.drop_last() =~= lower);
                assert(right.drop_last() =~= left);
                assert(upper.last() == a@[i as int]);
                assert(right.last() == b@[j as int]);
                lemma_edit_distance_bound(lower, right);
                lemma_edit_distance_bound(upper, left);
                lemma_edit_distance_bound(lower, left);
                assert(prev@[j + 1] == edit_distance(lower, b@.take(j + 1)));
                assert(prev@[j as int] == edit_distance(lower, b@.take(j as int)));
                assert(cur@[j as int] == edit_distance(upper, b@.take(j as int)));
            }
            let deleted: u128 = prev[j + 1] + 1;
            let inserted: u128 = cur[j] + 1;
            let replaced: u128 = if a[i] == b[j] {
                prev[j]
            } else {
                prev[j] + 1
            };
            let least: u128 = if deleted <= inserted && deleted <= replaced {
                deleted
            } else if inserted <= replaced {
                inserted
            } else {
                replaced
            };
            assert(least == edit_distance(upper, right));
            cur.push(least);
            j += 1;
        }
        prev = cur;
        i += 1;
    }
    proof {
        assert(a@.take(n as int) =~= a@);
        assert(b@.take(m as int) =~= b@);
        lemma_edit_distance_bound(a@, b@);
        assert(prev@[m as int] == edit_distance(a@.take(n as int), b@.take(m as int)));
    }
    prev[m] as usize
}

/// The provider that `domain` may have been meant to name: of the providers
/// within the accepted distance the nearest, and of several equally near
/// ones the first. `None` exactly where no provider is that near.
pub fn closest_mail_provider(domain: &str) -> (r: Option<&'static str>)
    ensures
        r is Some <==> has_similar_provider(mail_providers(), domain@),
        r matches Some(provider) ==> exists|best: int|
            is_closest_provider(mail_providers(), domain@, best) && provider@
                == #[trigger] mail_providers()[best],
{
    let mut providers: Vec<&'static str> = Vec::new();
    providers.push("gmail.com");
    providers.push("yahoo.com");
    providers.push("hotmail.com");
    providers.push("outlook.com");
    let ghost known = mail_providers();
    assert(known.len() == 4);
    assert forall|j: int| 0 <= j < 4 implies (#[trigger] providers@[j])@ == known[j] by {}
    let name = chars_of(domain);
    let mut found: Option<usize> = None;
    let mut least: usize = 0;
    let mut i: usize = 0;
    while i < providers.len()
        invariant
            i <= providers.len(),
            providers.len() == 4,
            known.len() == 4,
            known == mail_providers(),
            name@ == domain@,
            forall|j: int| 0 <= j < 4 ==> (#[trigger] providers@[j])@ == known[j],
            found is None ==> forall|j: int|
                0 <= j < i ==> edit_distance(domain@, #[trigger] known[j]) > MAX_PROVIDER_DISTANCE,
            found matches Some(best) ==> {
                &&& best < i
                &&& least == edit_distance(domain@, known[best as int])
                &&& least <= MAX_PROVIDER_DISTANCE
                &&& forall|j: int|
                    0 <= j < i ==> least <= edit_distance(domain@, #[trigger] known[j])
                &&& forall|j: int|
                    0 <= j < best ==> least < edit_distance(domain@, #[trigger] known[j])
            },
        decreases providers.len() - i,
    {
        let candidate = chars_of(providers[i]);
        assert(candidate@ == known[i as int]);
        let distance = levenshtein(&name, &candidate);
        if distance <= MAX_PROVIDER_DISTANCE {
            match found {
                None => {
                    found = Some(i);
                    least = distance;
                },
                Some(_) => {
                    if distance < least {
                        found = Some(i);
                        least = distance;
                    }
                },
            }
        }
        i += 1;
    }
    match found {
        None => {
            assert(!has_similar_provider(known, domain@));
            None
        },
        Some(best) => {
            assert(is_closest_provider(known, domain@, best as int));
            assert(edit_distance(domain@, known[best as int]) <= MAX_PROVIDER_DISTANCE);
            Some(providers[best])
        },
    }
}

/// What [`get_similar_mail_provider`] leaves in `after` for the details that
/// it found in `before`: where the domain is known and a provider lies near
/// it, the nearest provider as the suggestion; else the suggestion as it was.
/// Nothing else changes.
pub open spec fn suggestion_added(before: SyntaxDetails, after: SyntaxDetails) -> bool {
    &&& after.input == before.input
    &&& after.is_valid_syntax == before.is_valid_syntax
    &&& after.username == before.username
    &&& after.domain == before.domain
    &&& after.address == before.address
    &&& if before.domain is Some && has_similar_provider(mail_providers(), before.domain->0@) {
        after.suggestion matches Some(name) && exists|best: int|
            is_closest_provider(mail_providers(), before.domain->0@, best) && name@
                == #[trigger] mail_providers()[best]
    } else {
        after.suggestion == before.suggestion
    }
}

/// Sets the suggestion to the well-known mail provider that the domain may
/// have been meant to name, where there is one.
pub fn get_similar_mail_provider(syntax: &mut SyntaxDetails)
    ensures
        suggestion_added(*old(syntax), *final(syntax)),
{
    let suggestion = match &syntax.domain {
        Some(domain) => closest_mail_provider(domain.as_str()),
        None => None,
    };
    match suggestion {
        Some(provider) => {
            syntax.suggestion = Some(String::from_str(provider));
        },
        None => {},
    }
}

/// Of equally placed nearest providers there is one: two positions that both
/// hold the nearest provider first are one position.
pub proof fn lemma_closest_provider_unique(
    providers: Seq<Seq<char>>,
    domain: Seq<char>,
    a: int,
    b: int,
)
    requires
        is_closest_provider(providers, domain, a),
        is_closest_provider(providers, domain, b),
    ensures
        a == b,
{
    assert(edit_distance(domain, providers[a]) <= edit_distance(domain, providers[b]));
    assert(edit_distance(domain, providers[b]) <= edit_distance(domain, providers[a]));
}

} // verus!
