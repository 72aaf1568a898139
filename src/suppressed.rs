//! Keys whose press the compositor consumed, so that their release is kept
//! from clients as well.
use vstd::prelude::*;
use calloop::RegistrationToken;

verus! {

/// Relies on calloop's `RegistrationToken`: the handle of a registered event
/// source (here, a key-repeat timer), carried through and handed back so that
/// the event loop can remove the source.
#[verifier::external_type_specification]
#[verifier::external_body]
pub struct ExRegistrationToken(RegistrationToken);

/// One suppression: a raw keycode and the repeat timer that belongs to it.
pub type Suppression = (u32, Option<RegistrationToken>);

/// Whether some suppression in `s` is for `code`.
pub open spec fn has_code(s: Seq<Suppression>, code: u32) -> bool {
    exists|i: int| 0 <= i < s.len() && s[i].0 == code
}

/// The suppressions of `s` that are not for `code`, in their order.
pub open spec fn without_code(s: Seq<Suppression>, code: u32) -> Seq<Suppression>
    decreases s.len(),
{
    if s.len() == 0 {
        s
    } else if s.last().0 == code {
        without_code(s.drop_last(), code)
    } else {
        without_code(s.drop_last(), code).push(s.last())
    }
}

/// The timers of the suppressions of `s` for `code`, in their order.
pub open spec fn tokens_of(s: Seq<Suppression>, code: u32) -> Seq<RegistrationToken>
    decreases s.len(),
{
    if s.len() == 0 {
        Seq::empty()
    } else if s.last().0 == code && s.last().1 is Some {
        tokens_of(s.drop_last(), code).push(s.last().1->0)
    } else {
        tokens_of(s.drop_last(), code)
    }
}

/// The index of the last suppression in `s` below `n` that is for `code`.
pub open spec fn last_of_below(s: Seq<Suppression>, code: u32, n: int) -> Option<int>
    decreases n,
{
    if n <= 0 || n > s.len() {
        None
    } else if s[n - 1].0 == code {
        Some(n - 1)
    } else {
        last_of_below(s, code, n - 1)
    }
}

/// `s` with `token` given to the last suppression for `code`, if that one
/// has no timer yet.
pub open spec fn with_token(s: Seq<Suppression>, code: u32, token: RegistrationToken) -> Seq<
    Suppression,
> {
    match last_of_below(s, code, s.len() as int) {
        Some(i) => if s[i].1 is None {
            s.update(i, (code, Some(token)))
        } else {
            s
        },
        None => s,
    }
}

/// Removing the suppressions of a code leaves none for it, and keeps those of
/// every other code.
pub proof fn lemma_without_code(s: Seq<Suppression>, code: u32, other: u32)
    ensures
        !has_code(without_code(s, code), code),
        other != code ==> (has_code(without_code(s, code), other) == has_code(s, other)),
    decreases s.len(),
{
    if s.len() > 0 {
        lemma_without_code(s.drop_last(), code, other);
        let p = s.drop_last();
        assert forall|c: u32| #[trigger] has_code(s, c) == (has_code(p, c) || s.last().0 == c) by {
            if has_code(s, c) {
                let i = choose|i: int| 0 <= i < s.len() && s[i].0 == c;
                if i < s.len() - 1 {
                    assert(p[i].0 == c);
                }
            }
            if has_code(p, c) {
                let i = choose|i: int| 0 <= i < p.len() && p[i].0 == c;
                assert(s[i].0 == c);
            }
            if s.last().0 == c {
                assert(s[s.len() - 1].0 == c);
            }
        }
        let w = without_code(p, code);
        if s.last().0 != code {
            let w2 = w.push(s.last());
            assert forall|c: u32| #[trigger] has_code(w2, c) == (has_code(w, c) || s.last().0 == c) by {
                if has_code(w2, c) {
                    let i = choose|i: int| 0 <= i < w2.len() && w2[i].0 == c;
                    if i < w2.len() - 1 {
                        assert(w[i].0 == c);
                    }
                }
                if has_code(w, c) {
                    let i = choose|i: int| 0 <= i < w.len() && w[i].0 == c;
                    assert(w2[i].0 == c);
                }
                if s.last().0 == c {
                    assert(w2[w2.len() - 1].0 == c);
                }
            }
        }
    }
}

/// Without a suppression for `code` there is no timer of it to cancel and
/// nothing to drop.
pub proof fn lemma_no_code(s: Seq<Suppression>, code: u32)
    requires
        !has_code(s, code),
    ensures
        tokens_of(s, code) == Seq::<RegistrationToken>::empty(),
        without_code(s, code) == s,
    decreases s.len(),
{
    if s.len() > 0 {
        let p = s.drop_last();
        assert(!has_code(p, code)) by {
            if has_code(p, code) {
                let i = choose|i: int| 0 <= i < p.len() && p[i].0 == code;
                assert(s[i].0 == code);
            }
        }
        assert(s[s.len() - 1].0 != code);
        lemma_no_code(p, code);
        assert(p.push(s.last()) =~= s);
    }
}

/// The suppressions of one seat.
pub struct SupressedKeys {
    entries: Vec<Suppression>,
}

impl View for SupressedKeys {
    type V = Seq<Suppression>;

    closed spec fn view(&self) -> Seq<Suppression> {
        self.entries@
    }
}

impl SupressedKeys {
    /// No suppression at all.
    pub fn new() -> (r: Self)
        ensures
            r@ == Seq::<Suppression>::empty(),
    {
        SupressedKeys { entries: Vec::new() }
    }

    /// Whether some suppression is for `code`.
    pub fn contains(&self, code: u32) -> (r: bool)
        ensures
            r == has_code(self@, code),
    {
        let mut i: usize = 0;
        while i < self.entries.len()
            invariant
                i <= self@.len(),
                forall|j: int| 0 <= j < i ==> self@[j].0 != code,
            decreases self@.len() - i,
        {
            if self.entries[i].0 == code {
                return true;
            }
            i = i + 1;
        }
        false
    }

    /// Remembers that the press of `code` was consumed, with its repeat timer.
    pub fn add(&mut self, code: u32, token: Option<RegistrationToken>)
        ensures
            final(self)@ == old(self)@.push((code, token)),
    {
        self.entries.push((code, token));
    }

    /// Gives `token` to the last suppression for `code`, the one that its
    /// press recorded, unless that one has a timer already.
    pub fn set_token(&mut self, code: u32, token: RegistrationToken)
        ensures
            final(self)@ == with_token(old(self)@, code, token),
    {
        let mut n: usize = self.entries.len();
        while n > 0
            invariant
                n <= self@.len(),
                self@ == old(self)@,
                last_of_below(self@, code, self@.len() as int) == last_of_below(
                    self@,
                    code,
                    n as int,
                ),
            decreases n,
        {
            let e = self.entries[n - 1];
            if e.0 == code {
                if e.1.is_none() {
                    self.entries.set(n - 1, (code, Some(token)));
                }
                return;
            }
            n = n - 1;
        }
    }

    /// Drops every suppression for `code`. Returns the repeat timers that
    /// they held, for the caller to cancel, or `None` where they held none.
    pub fn filter(&mut self, code: u32) -> (r: Option<Vec<RegistrationToken>>)
        ensures
            final(self)@ == without_code(old(self)@, code),
            r is Some <==> tokens_of(old(self)@, code).len() > 0,
            r matches Some(t) ==> t@ == tokens_of(old(self)@, code),
    {
        let mut removed: Vec<RegistrationToken> = Vec::new();
        let mut remaining: Vec<Suppression> = Vec::new();
        let mut i: usize = 0;
        while i < self.entries.len()
            invariant
                i <= self@.len(),
                removed@ == tokens_of(self@.subrange(0, i as int), code),
                remaining@ == without_code(self@.subrange(0, i as int), code),
            decreases self@.len() - i,
        {
            let e = self.entries[i];
            proof {
                assert(self@.subrange(0, i + 1).drop_last() =~= self@.subrange(0, i as int));
            }
            if e.0 == code {
                if let Some(t) = e.1 {
                    removed.push(t);
                }
            } else {
                remaining.push(e);
            }
            i = i + 1;
        }
        proof {
            assert(self@.subrange(0, self@.len() as int) =~= self@);
        }
        self.entries = remaining;
        if removed.len() > 0 {
            Some(removed)
        } else {
            None
        }
    }
}

} // verus!
