//! Feature flags that enable experimental functionality in the host.

use vstd::prelude::*;
use vstd::std_specs::convert::FromSpecImpl;
use vstd::std_specs::iter::IteratorSpec;
use vstd::std_specs::ops::BitOrSpecImpl;

use crate::outside::{ascii_lowercase, collect_flags, same_text, to_ascii_lowercase};

verus! {

/// Feature flags to enable experimental functionality in the host. Flags are disabled
/// by default and must be explicitly enabled.
#[derive(Copy, Clone, Debug)]
pub struct Features {
    /// Enable the built-in HTTP server capability provider
    /// that can be started with the reference wasmcloud+builtin://http-server
    pub(crate) builtin_http: bool,
    /// Enable the built-in NATS Messaging capability provider
    /// that can be started with the reference wasmcloud+builtin://messaging-nats
    pub(crate) builtin_messaging: bool,
}

impl Features {
    /// The flags that enable exactly the providers given.
    pub closed spec fn of(http: bool, messaging: bool) -> Self {
        Features { builtin_http: http, builtin_messaging: messaging }
    }

    /// Whether the built-in HTTP server is enabled.
    pub closed spec fn http(self) -> bool {
        self.builtin_http
    }

    /// Whether the built-in NATS messaging provider is enabled.
    pub closed spec fn messaging(self) -> bool {
        self.builtin_messaging
    }

    /// The flags enabled in either operand.
    pub open spec fn union(self, other: Self) -> Self {
        Features::of(self.http() || other.http(), self.messaging() || other.messaging())
    }

    /// The union of a collection of flags: a flag is enabled in it when some
    /// element enables that flag.
    pub open spec fn union_of(flags: Seq<Self>) -> Self {
        Features::of(
            exists|i: int| 0 <= i < flags.len() && (#[trigger] flags[i]).http(),
            exists|i: int| 0 <= i < flags.len() && (#[trigger] flags[i]).messaging(),
        )
    }

    /// The flag that a name stands for. Case does not matter, and `-` and `_`
    /// are alike between the words.
    pub open spec fn parsed(name: Seq<char>) -> Option<Self> {
        let lower = ascii_lowercase(name);
        if lower == "builtin-http"@ || lower == "builtin_http"@ {
            Some(Features::of(true, false))
        } else if lower == "builtin-messaging"@ || lower == "builtin_messaging"@ {
            Some(Features::of(false, true))
        } else {
            None
        }
    }

    /// What a name enables: its flag, or nothing where the name is unknown.
    pub open spec fn enabled_by(name: Seq<char>) -> Self {
        match Features::parsed(name) {
            Some(flags) => flags,
            None => Features::of(false, false),
        }
    }

    /// Enable the built-in HTTP server capability provider
    pub fn with_builtin_http() -> (flags: Self)
        ensures
            flags == Features::of(true, false),
    {
        Self { builtin_http: true, ..Features::default() }
    }

    /// Enable the built-in NATS messaging capability provider
    pub fn with_builtin_messaging() -> (flags: Self)
        ensures
            flags == Features::of(false, true),
    {
        Self { builtin_messaging: true, ..Features::default() }
    }

    /// The flag that a name stands for, or `None` where the name is unknown.
    pub fn named(name: &str) -> (flags: Option<Self>)
        ensures
            flags == Features::parsed(name@),
    {
        let lower = to_ascii_lowercase(name);
        let flag = lower.as_str();
        if same_text(flag, "builtin-http") || same_text(flag, "builtin_http") {
            Some(Features::with_builtin_http())
        } else if same_text(flag, "builtin-messaging") || same_text(flag, "builtin_messaging") {
            Some(Features::with_builtin_messaging())
        } else {
            None
        }
    }

    /// The union of a collection of flags; of an empty collection, no flag.
    pub fn union_all(flags: &Vec<Self>) -> (union: Self)
        ensures
            union == Features::union_of(flags@),
    {
        let mut union = Features::default();
        let mut i: usize = 0;
        while i < flags.len()
            invariant
                i <= flags@.len(),
                union.http() == exists|j: int| 0 <= j < i && (#[trigger] flags@[j]).http(),
                union.messaging() == exists|j: int|
                    0 <= j < i && (#[trigger] flags@[j]).messaging(),
            decreases flags@.len() - i,
        {
            let ghost before = union;
            union = union | flags[i];
            proof {
                let next = flags@[i as int];
                Features::law_fields(
                    before.http() || next.http(),
                    before.messaging() || next.messaging(),
                );
            }
            i = i + 1;
        }
        proof {
            Features::law_extensional(union, Features::union_of(flags@));
        }
        union
    }

    /// The flags hold what they were made of.
    pub proof fn law_fields(http: bool, messaging: bool)
        ensures
            Features::of(http, messaging).http() == http,
            Features::of(http, messaging).messaging() == messaging,
    {
    }

    /// Flags that enable the same providers are equal.
    pub proof fn law_extensional(a: Self, b: Self)
        ensures
            a.http() == b.http() && a.messaging() == b.messaging() ==> a == b,
    {
    }

    /// The union of flags is commutative, associative and idempotent, and no
    /// flag adds nothing.
    pub proof fn law_union(a: Self, b: Self, c: Self)
        ensures
            a.union(b) == b.union(a),
            a.union(b).union(c) == a.union(b.union(c)),
            a.union(a) == a,
            a.union(Features::of(false, false)) == a,
    {
    }

    /// A union enables a provider exactly where one of its operands does, each
    /// provider for itself.
    pub proof fn law_union_enables(a: Self, b: Self)
        ensures
            a.union(b).http() <==> a.http() || b.http(),
            a.union(b).messaging() <==> a.messaging() || b.messaging(),
    {
    }

    /// The sum enables a provider exactly where an element does.
    pub proof fn law_sum_enables(flags: Seq<Self>)
        ensures
            Features::union_of(flags).http() <==> exists|i: int|
                0 <= i < flags.len() && (#[trigger] flags[i]).http(),
            Features::union_of(flags).messaging() <==> exists|i: int|
                0 <= i < flags.len() && (#[trigger] flags[i]).messaging(),
    {
    }

    /// The sum of no flags is no flag, and one more element joins the sum by
    /// union.
    pub proof fn law_sum_step(flags: Seq<Self>, next: Self)
        ensures
            Features::union_of(Seq::empty()) == Features::of(false, false),
            Features::union_of(flags.push(next)) == Features::union_of(flags).union(next),
    {
        let more = flags.push(next);
        let sum = Features::union_of(more);
        assert(more[flags.len() as int] == next);
        assert(sum.http() == (Features::union_of(flags).http() || next.http())) by {
            if Features::union_of(flags).http() {
                let i = choose|i: int| 0 <= i < flags.len() && (#[trigger] flags[i]).http();
                assert(more[i].http());
            }
            if sum.http() && !next.http() {
                let i = choose|i: int| 0 <= i < more.len() && (#[trigger] more[i]).http();
                assert(flags[i].http());
            }
        }
        assert(sum.messaging() == (Features::union_of(flags).messaging() || next.messaging())) by {
            if Features::union_of(flags).messaging() {
                let i = choose|i: int| 0 <= i < flags.len() && (#[trigger] flags[i]).messaging();
                assert(more[i].messaging());
            }
            if sum.messaging() && !next.messaging() {
                let i = choose|i: int| 0 <= i < more.len() && (#[trigger] more[i]).messaging();
                assert(flags[i].messaging());
            }
        }
    }

    /// The sum does not depend on the order of the flags, nor on how often one
    /// occurs.
    pub proof fn law_sum_unordered(a: Seq<Self>, b: Seq<Self>)
        requires
            forall|flags: Self| a.contains(flags) == b.contains(flags),
        ensures
            Features::union_of(a) == Features::union_of(b),
    {
        Features::lemma_sum_contained(a, b);
        Features::lemma_sum_contained(b, a);
    }

    /// What the sum of some flags enables, the sum of more flags enables.
    proof fn lemma_sum_contained(a: Seq<Self>, b: Seq<Self>)
        requires
            forall|flags: Self| a.contains(flags) ==> b.contains(flags),
        ensures
            Features::union_of(a).http() ==> Features::union_of(b).http(),
            Features::union_of(a).messaging() ==> Features::union_of(b).messaging(),
    {
        if Features::union_of(a).http() {
            let i = choose|i: int| 0 <= i < a.len() && (#[trigger] a[i]).http();
            assert(a.contains(a[i]));
            let j = choose|j: int| 0 <= j < b.len() && b[j] == a[i];
            assert(b[j].http());
        }
        if Features::union_of(a).messaging() {
            let i = choose|i: int| 0 <= i < a.len() && (#[trigger] a[i]).messaging();
            assert(a.contains(a[i]));
            let j = choose|j: int| 0 <= j < b.len() && b[j] == a[i];
            assert(b[j].messaging());
        }
    }

    /// A flag has one name: `builtin`, a dash or an underscore, and the provider.
    /// `key` is the name in lower case with an underscore for each dash; it alone
    /// decides which flag the name stands for, and every other name stands for
    /// none.
    pub proof fn law_names(name: Seq<char>, key: Seq<char>)
        requires
            key == ascii_lowercase(name).map_values(
                |c: char|
                    if c == '-' {
                        '_'
                    } else {
                        c
                    },
            ),
        ensures
            Features::parsed(name) is Some <==> key == "builtin_http"@ || key
                == "builtin_messaging"@,
            key == "builtin_http"@ ==> Features::enabled_by(name).http() && !Features::enabled_by(
                name,
            ).messaging(),
            key == "builtin_messaging"@ ==> !Features::enabled_by(name).http()
                && Features::enabled_by(name).messaging(),
            Features::parsed(name) is Some ==> Features::parsed(name)->0 == Features::enabled_by(
                name,
            ),
            Features::parsed(name) is None ==> !Features::enabled_by(name).http()
                && !Features::enabled_by(name).messaging(),
    {
        let lower = ascii_lowercase(name);
        reveal_strlit("builtin-http");
        reveal_strlit("builtin_http");
        reveal_strlit("builtin-messaging");
        reveal_strlit("builtin_messaging");
        if lower == "builtin-http"@ || lower == "builtin_http"@ {
            assert(key =~= "builtin_http"@);
        }
        if lower == "builtin-messaging"@ || lower == "builtin_messaging"@ {
            assert(key =~= "builtin_messaging"@);
        }
        if key == "builtin_http"@ {
            assert("builtin_http"@.len() == 12);
            assert(lower.len() == key.len());
            assert forall|i: int| 0 <= i < 12 && i != 7 implies lower[i] == "builtin_http"@[i] by {
                assert(key[i] == "builtin_http"@[i]);
            }
            assert(key[7] == '_');
            if lower[7] == '-' {
                assert(lower =~= "builtin-http"@);
            } else {
                assert(lower =~= "builtin_http"@);
            }
        }
        if key == "builtin_messaging"@ {
            assert("builtin_messaging"@.len() == 17);
            assert(lower.len() == key.len());
            assert forall|i: int| 0 <= i < 17 && i != 7 implies lower[i]
                == "builtin_messaging"@[i] by {
                assert(key[i] == "builtin_messaging"@[i]);
            }
            assert(key[7] == '_');
            if lower[7] == '-' {
                assert(lower =~= "builtin-messaging"@);
            } else {
                assert(lower =~= "builtin_messaging"@);
            }
        }
    }

    /// The case of a flag's name does not matter.
    pub proof fn law_name_case(a: Seq<char>, b: Seq<char>)
        requires
            ascii_lowercase(a) == ascii_lowercase(b),
        ensures
            Features::parsed(a) == Features::parsed(b),
            Features::enabled_by(a) == Features::enabled_by(b),
    {
    }
}

impl Default for Features {
    /// All flags disabled.
    fn default() -> (flags: Self)
        ensures
            flags == Features::of(false, false),
    {
        Features { builtin_http: false, builtin_messaging: false }
    }
}

/// This enables unioning feature flags together
impl std::ops::BitOr for Features {
    type Output = Self;

    fn bitor(self, rhs: Self) -> (union: Self)
        ensures
            union == self.union(rhs),
    {
        Self {
            builtin_http: self.builtin_http || rhs.builtin_http,
            builtin_messaging: self.builtin_messaging || rhs.builtin_messaging,
        }
    }
}

impl BitOrSpecImpl for Features {
    open spec fn obeys_bitor_spec() -> bool {
        true
    }

    open spec fn bitor_req(self, rhs: Self) -> bool {
        true
    }

    open spec fn bitor_spec(self, rhs: Self) -> Self {
        self.union(rhs)
    }
}

/// Allow for summing over a collection of feature flags
impl std::iter::Sum for Features {
    fn sum<I: Iterator<Item = Self>>(iter: I) -> (union: Self)
        ensures
            iter.obeys_prophetic_iter_laws() ==> union == Features::union_of(iter.remaining()),
    {
        Features::union_all(&collect_flags(iter))
    }
}

/// Parse a feature flag from a string, enabling the feature if the string matches
impl From<&str> for Features {
    fn from(s: &str) -> (flags: Self)
        ensures
            flags == Features::enabled_by(s@),
    {
        match Features::named(s) {
            Some(flags) => flags,
            None => Features::default(),
        }
    }
}

impl FromSpecImpl<&str> for Features {
    open spec fn obeys_from_spec() -> bool {
        true
    }

    open spec fn from_spec(s: &str) -> Self {
        Features::enabled_by(s@)
    }
}

} // verus!
