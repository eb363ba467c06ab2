use vstd::prelude::*;

verus! {

/// Outcome of checking an offered credential.
#[derive(Debug, Clone, Copy, PartialEq, Eq, Structural)]
pub enum AuthStatus {
    Authenticated,
    IncorrectPassword,
}

/// Compares the salted hash derived from an offered credential with the
/// provisioned one. Equal lengths are compared in full, without stopping at
/// the first differing byte, so that the time taken does not reveal where
/// they differ.
pub fn verify(computed: &[u8], expected: &[u8]) -> (r: AuthStatus)
    ensures
        r == AuthStatus::Authenticated <==> computed@ == expected@,
        r == AuthStatus::IncorrectPassword <==> computed@ != expected@,
{
    if computed.len() != expected.len() {
        return AuthStatus::IncorrectPassword;
    }
    let mut diff: u8 = 0;
    let mut i: usize = 0;
    while i < computed.len()
        invariant
            i <= computed@.len(),
            computed@.len() == expected@.len(),
            diff == 0 <==> forall|j: int| 0 <= j < i ==> computed@[j] == expected@[j],
        decreases computed@.len() - i,
    {
        let a = computed[i];
        let b = expected[i];
        let x = a ^ b;
        assert(x == 0 <==> a == b) by (bit_vector)
            requires
                x == a ^ b,
        ;
        assert((diff | x) == 0 <==> (diff == 0 && x == 0)) by (bit_vector);
        diff = diff | x;
        i = i + 1;
    }
    if diff == 0 {
        assert(computed@ =~= expected@);
        AuthStatus::Authenticated
    } else {
        AuthStatus::IncorrectPassword
    }
}

} // verus!
