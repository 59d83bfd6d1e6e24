//! The notification bitset: a word whose set bits are the asynchronous events
//! that wait for a task. Bit 0 is the timer, bit 1 an interrupt, bit 2 the
//! abort of a peer, and every further bit `3 + n` the asynchronous sender `n`.

use vstd::prelude::*;

verus! {

/// One notification of a [`Notify`] set.
#[derive(Debug, Clone, Copy, PartialEq, Eq, Structural)]
pub enum NotifyEnum {
    /// A timeout that was armed before has passed.
    TIMER,
    /// An interrupt that the task listens to has occurred.
    IRQ,
    /// A peer that the task was waiting on was destroyed.
    ABORTED,
    /// The asynchronous sender with this id has data.
    ASYNC(u8),
}

impl NotifyEnum {
    /// The bit that stands for this notification.
    pub open spec fn index(self) -> int {
        match self {
            NotifyEnum::TIMER => 0,
            NotifyEnum::IRQ => 1,
            NotifyEnum::ABORTED => 2,
            NotifyEnum::ASYNC(n) => 3 + n as int,
        }
    }

    /// The notification that a bit stands for.
    pub open spec fn of_index(i: int) -> NotifyEnum {
        if i == 0 {
            NotifyEnum::TIMER
        } else if i == 1 {
            NotifyEnum::IRQ
        } else if i == 2 {
            NotifyEnum::ABORTED
        } else {
            NotifyEnum::ASYNC((i - 3) as u8)
        }
    }

    /// Whether the notification has a bit in a word of this machine.
    pub open spec fn fits(self) -> bool {
        self.index() < usize::BITS
    }

    /// The number of the bit that stands for this notification.
    pub fn bit_index(self) -> (i: usize)
        ensures
            i == self.index(),
    {
        match self {
            NotifyEnum::TIMER => 0,
            NotifyEnum::IRQ => 1,
            NotifyEnum::ABORTED => 2,
            NotifyEnum::ASYNC(n) => 3 + n as usize,
        }
    }
}

/// Whether bit `i` of the word `w` is set.
pub open spec fn bit_at(w: usize, i: int) -> bool {
    (w >> (i as usize)) & 1 == 1
}

/// `i` is the least element of `s`.
pub open spec fn is_lowest(s: Set<int>, i: int) -> bool {
    s.contains(i) && forall|j: int| 0 <= j < i ==> !s.contains(j)
}

proof fn lemma_bit_test(w: usize, i: usize)
    requires
        i < usize::BITS,
    ensures
        (w & (1usize << i) != 0) == bit_at(w, i as int),
{
    assert((w & (1usize << i) != 0) == ((w >> i) & 1 == 1)) by (bit_vector)
        requires
            i < usize::BITS,
    ;
}

proof fn lemma_bit_clear(w: usize, i: usize, j: usize)
    requires
        i < usize::BITS,
        j < usize::BITS,
    ensures
        bit_at(w & !(1usize << i), j as int) == (j != i && bit_at(w, j as int)),
{
    assert((((w & !(1usize << i)) >> j) & 1 == 1) == (j != i && (w >> j) & 1 == 1)) by (bit_vector)
        requires
            i < usize::BITS,
            j < usize::BITS,
    ;
}

proof fn lemma_bit_or(a: usize, b: usize, j: usize)
    requires
        j < usize::BITS,
    ensures
        bit_at(a | b, j as int) == (bit_at(a, j as int) || bit_at(b, j as int)),
{
    assert((((a | b) >> j) & 1 == 1) == ((a >> j) & 1 == 1 || (b >> j) & 1 == 1)) by (bit_vector)
        requires
            j < usize::BITS,
    ;
}

proof fn lemma_bit_single(i: usize, j: usize)
    requires
        i < usize::BITS,
        j < usize::BITS,
    ensures
        bit_at(1usize << i, j as int) == (i == j),
{
    assert((((1usize << i) >> j) & 1 == 1) == (i == j)) by (bit_vector)
        requires
            i < usize::BITS,
            j < usize::BITS,
    ;
}

proof fn lemma_bit_zero(j: usize)
    requires
        j < usize::BITS,
    ensures
        !bit_at(0usize, j as int),
{
    assert(((0usize >> j) & 1 == 1) == false) by (bit_vector);
}

/// A set of pending notifications, packed into a word.
#[derive(Debug, Clone, Copy, PartialEq, Eq, Structural)]
pub struct Notify(pub(crate) usize);

impl View for Notify {
    type V = Set<int>;

    /// The bits that are set.
    closed spec fn view(&self) -> Set<int> {
        Set::new(|i: int| 0 <= i < usize::BITS && bit_at(self.0, i))
    }
}

impl Notify {
    /// The word that holds the set.
    pub closed spec fn bits(self) -> usize {
        self.0
    }

    /// The empty set.
    pub closed spec fn spec_new() -> Notify {
        Notify(0)
    }

    /// The union of two sets.
    pub closed spec fn spec_bitor(self, rhs: Notify) -> Notify {
        Notify(self.0 | rhs.0)
    }

    /// The set that holds one notification.
    pub closed spec fn spec_from(value: NotifyEnum) -> Notify {
        Notify(1usize << (value.index() as usize))
    }

    /// The set that a word stands for.
    pub closed spec fn spec_from_bits(bits: usize) -> Notify {
        Notify(bits)
    }

    /// The set without the bit `i`.
    pub closed spec fn spec_without(self, i: int) -> Notify {
        Notify(self.0 & !(1usize << (i as usize)))
    }

    /// Two sets with the same members are the same set.
    pub proof fn lemma_view_injective(a: Notify, b: Notify)
        requires
            a@ == b@,
        ensures
            a == b,
    {
        let x = a.0;
        let y = b.0;
        assert forall|j: usize| j < usize::BITS implies (#[trigger] (x >> j)) & 1 == (y >> j) & 1 by {
            assert(a@.contains(j as int) == b@.contains(j as int));
            assert(a@.contains(j as int) == bit_at(x, j as int));
            assert(b@.contains(j as int) == bit_at(y, j as int));
            assert((j as int) as usize == j);
            assert(((x >> j) & 1 == 1 || (x >> j) & 1 == 0) && ((y >> j) & 1 == 1 || (y >> j) & 1
                == 0)) by (bit_vector);
        }
        lemma_same_bits(x, y, usize::BITS as usize);
    }

    /// Every member of a set is the number of a bit of a word.
    pub proof fn lemma_view_range(self)
        ensures
            forall|i: int| self@.contains(i) ==> 0 <= i < usize::BITS,
            self@.finite(),
    {
        let bound = Set::new(|i: int| 0 <= i < usize::BITS);
        vstd::set_lib::lemma_int_range(0, usize::BITS as int);
        assert(bound =~= vstd::set_lib::set_int_range(0, usize::BITS as int));
        assert(self@.subset_of(bound));
        vstd::set_lib::lemma_len_subset(self@, bound);
    }

    /// What the empty set holds.
    pub proof fn lemma_new_view()
        ensures
            Notify::spec_new()@ == Set::<int>::empty(),
    {
        assert forall|i: int| !Notify::spec_new()@.contains(i) by {
            if 0 <= i < usize::BITS {
                lemma_bit_zero(i as usize);
            }
        }
        assert(Notify::spec_new()@ =~= Set::<int>::empty());
    }

    /// What a union holds.
    pub proof fn lemma_bitor_view(self, rhs: Notify)
        ensures
            self.spec_bitor(rhs)@ == self@.union(rhs@),
    {
        assert forall|i: int| self.spec_bitor(rhs)@.contains(i) == self@.union(rhs@).contains(i) by {
            if 0 <= i < usize::BITS {
                lemma_bit_or(self.0, rhs.0, i as usize);
            }
        }
        assert(self.spec_bitor(rhs)@ =~= self@.union(rhs@));
    }

    /// What the set of one notification holds.
    pub proof fn lemma_from_view(value: NotifyEnum)
        requires
            value.fits(),
        ensures
            Notify::spec_from(value)@ == set![value.index()],
    {
        assert forall|i: int| Notify::spec_from(value)@.contains(i) == (i == value.index()) by {
            if 0 <= i < usize::BITS {
                lemma_bit_single(value.index() as usize, i as usize);
            }
        }
        assert(Notify::spec_from(value)@ =~= set![value.index()]);
    }

    /// What a set holds after a bit was taken out.
    pub proof fn lemma_without_view(self, i: int)
        requires
            0 <= i < usize::BITS,
        ensures
            self.spec_without(i)@ == self@.remove(i),
    {
        assert forall|j: int| self.spec_without(i)@.contains(j) == self@.remove(i).contains(j) by {
            if 0 <= j < usize::BITS {
                lemma_bit_clear(self.0, i as usize, j as usize);
            }
        }
        assert(self.spec_without(i)@ =~= self@.remove(i));
    }

    /// A set is empty exactly when its word is zero.
    pub proof fn lemma_empty_is_zero(self)
        ensures
            (self@ == Set::<int>::empty()) == (self == Notify::spec_new()),
    {
        Notify::lemma_new_view();
        if self@ == Set::<int>::empty() {
            Notify::lemma_view_injective(self, Notify::spec_new());
        }
    }

    /// Creates the empty set of notifications.
    pub fn new() -> (r: Notify)
        ensures
            r == Notify::spec_new(),
            r@ == Set::<int>::empty(),
    {
        proof {
            Notify::lemma_new_view();
        }
        Notify(0)
    }

    /// Takes all notifications out and returns them.
    pub fn pop_all(&mut self) -> (r: Notify)
        ensures
            r == *old(self),
            *final(self) == Notify::spec_new(),
            final(self)@ == Set::<int>::empty(),
    {
        proof {
            Notify::lemma_new_view();
        }
        let ret = Notify(self.0);
        self.0 = 0;
        ret
    }

    /// Takes the lowest notification out and returns it: the timer before an
    /// interrupt, that before an abort, that before the asynchronous senders
    /// in the order of their ids.
    pub fn pop(&mut self) -> (r: Option<NotifyEnum>)
        ensures
            r is None <==> old(self)@ == Set::<int>::empty(),
            r is None ==> *final(self) == *old(self),
            r matches Some(n) ==> is_lowest(old(self)@, n.index()) && n == NotifyEnum::of_index(
                n.index(),
            ) && *final(self) == old(self).spec_without(n.index()) && final(self)@ == old(self)@.remove(n.index()),
    {
        let bits: usize = usize::BITS as usize;
        let mut i: usize = 0;
        while i < bits
            invariant
                i <= bits,
                bits == usize::BITS,
                *self == *old(self),
                forall|j: int| 0 <= j < i ==> !bit_at(self.0, j),
            decreases bits - i,
        {
            proof {
                lemma_bit_test(self.0, i);
            }
            if self.0 & (1usize << i) != 0 {
                proof {
                    self.lemma_without_view(i as int);
                    assert(self@.contains(i as int));
                }
                self.0 = self.0 & !(1usize << i);
                if i == 0 {
                    return Some(NotifyEnum::TIMER);
                } else if i == 1 {
                    return Some(NotifyEnum::IRQ);
                } else if i == 2 {
                    return Some(NotifyEnum::ABORTED);
                } else {
                    return Some(NotifyEnum::ASYNC((i - 3) as u8));
                }
            }
            i = i + 1;
        }
        proof {
            assert(self@ =~= Set::<int>::empty());
        }
        None
    }

    /// Takes one given notification out, if it is pending.
    pub fn pop_specify(&mut self, notification: NotifyEnum) -> (r: Option<NotifyEnum>)
        requires
            notification.fits(),
        ensures
            r is Some <==> old(self)@.contains(notification.index()),
            r is Some ==> r == Some(notification) && *final(self) == old(self).spec_without(
                notification.index(),
            ) && final(self)@ == old(self)@.remove(notification.index()),
            r is None ==> *final(self) == *old(self),
    {
        let index = notification.bit_index();
        proof {
            lemma_bit_test(self.0, index);
            self.lemma_without_view(index as int);
        }
        if self.0 & (1usize << index) != 0 {
            self.0 = self.0 & !(1usize << index);
            Some(notification)
        } else {
            None
        }
    }

    /// The set that a word stands for: the notifications whose bits are set in it.
    pub fn from_bits(bits: usize) -> (r: Notify)
        ensures
            r == Notify::spec_from_bits(bits),
            r.bits() == bits,
    {
        Notify(bits)
    }

    /// The word that stands for this set.
    pub fn to_bits(&self) -> (r: usize)
        ensures
            r == self.bits(),
            Notify::spec_from_bits(r) == *self,
    {
        self.0
    }

    /// Whether no notification is pending.
    pub fn is_empty(&self) -> (r: bool)
        ensures
            r == (self@ == Set::<int>::empty()),
            r == (*self == Notify::spec_new()),
    {
        proof {
            self.lemma_empty_is_zero();
        }
        self.0 == 0
    }

    /// Whether a given notification is pending.
    pub fn contains(&self, notification: NotifyEnum) -> (r: bool)
        requires
            notification.fits(),
        ensures
            r == self@.contains(notification.index()),
    {
        let index = notification.bit_index();
        proof {
            lemma_bit_test(self.0, index);
        }
        self.0 & (1usize << index) != 0
    }

    /// The set that holds one notification.
    pub fn from(value: NotifyEnum) -> (r: Notify)
        requires
            value.fits(),
        ensures
            r == Notify::spec_from(value),
            r@ == set![value.index()],
    {
        proof {
            Notify::lemma_from_view(value);
        }
        Notify(1usize << value.bit_index())
    }
}

proof fn lemma_same_bits(x: usize, y: usize, n: usize)
    requires
        n <= usize::BITS,
        forall|j: usize| j < n ==> (#[trigger] (x >> j)) & 1 == (y >> j) & 1,
    ensures
        n < usize::BITS ==> x ^ y == ((x ^ y) >> n) << n,
        n == usize::BITS ==> x == y,
    decreases n,
{
    if n == 0 {
        assert(x ^ y == ((x ^ y) >> 0usize) << 0usize) by (bit_vector);
    } else {
        let m: usize = (n - 1) as usize;
        lemma_same_bits(x, y, m);
        assert((x >> m) & 1 == (y >> m) & 1);
        assert(x ^ y == ((x ^ y) >> m) << m && (x >> m) & 1 == (y >> m) & 1 && m < usize::BITS ==> (
        m + 1 < usize::BITS ==> x ^ y == ((x ^ y) >> ((m + 1) as usize)) << ((m + 1) as usize)) && (
        m + 1 == usize::BITS ==> x == y)) by (bit_vector);
    }
}

impl core::ops::BitOr for Notify {
    type Output = Notify;

    /// The union of two sets, so that `a | b` joins notifications.
    fn bitor(self, rhs: Notify) -> (r: Notify) {
        Notify(self.0 | rhs.0)
    }
}

impl vstd::std_specs::ops::BitOrSpecImpl for Notify {
    open spec fn obeys_bitor_spec() -> bool {
        true
    }

    open spec fn bitor_req(self, rhs: Notify) -> bool {
        true
    }

    open spec fn bitor_spec(self, rhs: Notify) -> Notify {
        self.spec_bitor(rhs)
    }
}

impl Notify {
    /// Adds the notifications of `rhs` to this set.
    pub fn bitor_assign(&mut self, rhs: Notify)
        ensures
            *final(self) == old(self).spec_bitor(rhs),
            final(self)@ == old(self)@.union(rhs@),
    {
        proof {
            self.lemma_bitor_view(rhs);
        }
        self.0 = self.0 | rhs.0;
    }
}

} // verus!
