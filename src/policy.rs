use vstd::prelude::*;

verus! {

/// The least biometric assurance that a caller accepts.
#[derive(Debug, Clone, Copy, PartialEq, Eq, Structural)]
pub enum BiometricStrength {
    Weak,
    Strong,
}

/// Proof that a combination of factors was found satisfiable by this
/// backend. It has no contents: it matters only that it exists.
#[derive(Debug)]
pub struct Policy;

/// One factor declaration made on a builder.
#[derive(Debug, Clone, Copy, PartialEq, Eq, Structural)]
pub enum Factor {
    Biometrics(Option<BiometricStrength>),
    Password(bool),
    Watch(bool),
    WristDetection(bool),
}

/// Whether a builder that was `valid` stays valid after `factor` is declared.
/// Biometrics must name a strength, and password fallback must be allowed:
/// the platform offers one consent prompt that may itself fall back to a
/// password. The wearable factors mean nothing here and are ignored.
pub open spec fn declare(valid: bool, factor: Factor) -> bool {
    match factor {
        Factor::Biometrics(strength) => valid && strength is Some,
        Factor::Password(allowed) => valid && allowed,
        Factor::Watch(_) => valid,
        Factor::WristDetection(_) => valid,
    }
}

/// Validity of a fresh builder after the factors are declared in order.
pub open spec fn declare_all(factors: Seq<Factor>) -> bool
    decreases factors.len(),
{
    if factors.len() == 0 {
        true
    } else {
        declare(declare_all(factors.drop_last()), factors.last())
    }
}

/// Whether `factor`, declared on its own, can be honored.
pub open spec fn honored(factor: Factor) -> bool {
    declare(true, factor)
}

/// A chain of declarations leaves the builder valid exactly when each
/// declaration, taken on its own, can be honored.
pub proof fn lemma_valid_iff_each_honored(factors: Seq<Factor>)
    ensures
        declare_all(factors) <==> forall|i: int| 0 <= i < factors.len() ==> honored(#[trigger] factors[i]),
    decreases factors.len(),
{
    if factors.len() > 0 {
        let front = factors.drop_last();
        lemma_valid_iff_each_honored(front);
        let last = factors.last();
        assert(declare_all(factors) == (declare_all(front) && honored(last)));
        assert forall|i: int| 0 <= i < front.len() implies #[trigger] front[i] == factors[i] by {}
        if declare_all(factors) {
            assert forall|i: int| 0 <= i < factors.len() implies honored(#[trigger] factors[i]) by {
                if i < front.len() {
                    assert(honored(front[i]));
                }
            }
        } else if forall|i: int| 0 <= i < factors.len() ==> honored(#[trigger] factors[i]) {
            assert(honored(factors[factors.len() - 1]));
            assert forall|i: int| 0 <= i < front.len() implies honored(#[trigger] front[i]) by {
                assert(honored(factors[i]));
            }
        }
    }
}

/// Requesting biometrics without a strength, anywhere in the chain, leaves
/// `build` with no policy.
pub proof fn lemma_biometrics_without_strength_refused(factors: Seq<Factor>, i: int)
    requires
        0 <= i < factors.len(),
        factors[i] == Factor::Biometrics(None),
    ensures
        !declare_all(factors),
{
    lemma_valid_iff_each_honored(factors);
}

/// Forbidding password fallback, anywhere in the chain, leaves `build` with
/// no policy whatever else is declared.
pub proof fn lemma_password_forbidden_refused(factors: Seq<Factor>, i: int)
    requires
        0 <= i < factors.len(),
        factors[i] == Factor::Password(false),
    ensures
        !declare_all(factors),
{
    lemma_valid_iff_each_honored(factors);
}

/// When every biometrics request names a strength and every password
/// declaration allows fallback, `build` yields a policy; watch and wrist
/// detection may be declared with any value.
pub proof fn lemma_satisfiable_builds(factors: Seq<Factor>)
    requires
        forall|i: int| 0 <= i < factors.len() ==> #[trigger] factors[i] != Factor::Biometrics(None),
        forall|i: int| 0 <= i < factors.len() ==> #[trigger] factors[i] != Factor::Password(false),
    ensures
        declare_all(factors),
{
    lemma_valid_iff_each_honored(factors);
    assert forall|i: int| 0 <= i < factors.len() implies honored(#[trigger] factors[i]) by {
        assert(factors[i] != Factor::Biometrics(None));
        assert(factors[i] != Factor::Password(false));
    }
}

/// Watch and wrist-detection declarations never change whether `build`
/// yields a policy: dropping one from the chain gives the same outcome.
pub proof fn lemma_wearables_ignored(factors: Seq<Factor>, i: int)
    requires
        0 <= i < factors.len(),
        factors[i] is Watch || factors[i] is WristDetection,
    ensures
        declare_all(factors.remove(i)) == declare_all(factors),
{
    let rest = factors.remove(i);
    lemma_valid_iff_each_honored(factors);
    lemma_valid_iff_each_honored(rest);
    assert forall|j: int| 0 <= j < rest.len() implies #[trigger] rest[j] == factors[if j < i { j } else { j + 1 }] by {}
    if declare_all(rest) {
        assert forall|j: int| 0 <= j < factors.len() implies honored(#[trigger] factors[j]) by {
            if j < i {
                assert(rest[j] == factors[j]);
            } else if j > i {
                assert(rest[j - 1] == factors[j]);
            }
        }
    }
    if declare_all(factors) {
        assert forall|j: int| 0 <= j < rest.len() implies honored(#[trigger] rest[j]) by {
            if j < i {
                assert(honored(factors[j]));
            } else {
                assert(honored(factors[j + 1]));
            }
        }
    }
}

/// Accumulates requested factors and decides whether this backend can honor
/// them. Validity only ever goes from true to false.
#[derive(Debug)]
pub struct PolicyBuilder {
    valid: bool,
}

impl View for PolicyBuilder {
    type V = bool;

    /// Whether every factor declared so far can be honored.
    closed spec fn view(&self) -> bool {
        self.valid
    }
}

impl PolicyBuilder {
    pub fn new() -> (r: Self)
        ensures
            r@ == declare_all(Seq::empty()),
    {
        PolicyBuilder { valid: true }
    }

    /// Requests biometrics of at least the given strength; with no strength
    /// the builder can no longer produce a policy.
    pub fn biometrics(self, biometrics: Option<BiometricStrength>) -> (r: Self)
        ensures
            r@ == declare(self@, Factor::Biometrics(biometrics)),
    {
        if biometrics.is_none() {
            PolicyBuilder { valid: false }
        } else {
            self
        }
    }

    /// Allows or forbids password fallback; forbidding it cannot be honored.
    pub fn password(self, password: bool) -> (r: Self)
        ensures
            r@ == declare(self@, Factor::Password(password)),
    {
        if password {
            self
        } else {
            PolicyBuilder { valid: false }
        }
    }

    /// Accepted and ignored: there is no wearable unlock on this backend.
    pub fn watch(self, watch: bool) -> (r: Self)
        ensures
            r@ == declare(self@, Factor::Watch(watch)),
    {
        self
    }

    /// Accepted and ignored: there is no wrist detection on this backend.
    pub fn wrist_detection(self, wrist_detection: bool) -> (r: Self)
        ensures
            r@ == declare(self@, Factor::WristDetection(wrist_detection)),
    {
        self
    }

    /// A policy exactly when every declared factor can be honored.
    pub fn build(self) -> (r: Option<Policy>)
        ensures
            r is Some <==> self@,
    {
        if self.valid {
            Some(Policy)
        } else {
            None
        }
    }
}

} // verus!
