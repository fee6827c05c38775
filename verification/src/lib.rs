//! A one-shot initialization cell.
//!
//! A [`Lazy`] value holds either a zero-argument initializer or the value
//! that initializer produces. The first read claims the right to run the
//! initializer, runs it exactly once, and publishes the result; every later
//! read returns the published value unchanged.
//!
//! The lifecycle is a three-stage state machine that only moves forward:
//! `Pending` (the initializer has not run), `InProgress` (a claim is held and
//! the initializer is running), `Ready` (the value is published). The
//! [`protocol`] module states that machine over the raw stage codes used by
//! drivers that share a cell across tasks.

use vstd::prelude::*;

pub mod protocol;

verus! {

/// The three lifecycle stages of a cell, each owning exactly what is live in
/// that stage: the not-yet-run initializer, nothing (the running initializer
/// has been moved out to its claimant), or the produced value.
#[derive(Debug)]
pub enum Stage<T, F> {
    /// The initializer has not run yet; the cell owns it.
    Pending(F),
    /// A claimant has taken the initializer and has not published a value yet.
    InProgress,
    /// The value has been published; the cell owns it.
    Ready(T),
}

/// The lazy cell: a value that is not produced until first requested.
///
/// `T` is the produced value's type and `F` the initializer's type.
#[derive(Debug)]
pub struct Lazy<T, F> {
    slot: Stage<T, F>,
}

impl<T, F> View for Lazy<T, F> {
    type V = Stage<T, F>;

    closed spec fn view(&self) -> Stage<T, F> {
        self.slot
    }
}

impl<T, F> Lazy<T, F> {
    /// Builds a new cell that will run `f` on first access.
    pub fn new(f: F) -> (r: Self)
        ensures
            r@ == Stage::<T, F>::Pending(f),
    {
        Lazy { slot: Stage::Pending(f) }
    }

    /// Builds a cell that is already initialized with `value`; no
    /// initializer is stored and none will ever run.
    pub fn init(value: T) -> (r: Self)
        ensures
            r@ == Stage::<T, F>::Ready(value),
    {
        Lazy { slot: Stage::Ready(value) }
    }

    /// Returns `true` if the value is uninitialized, `false` otherwise.
    pub fn is_uninit(&self) -> (r: bool)
        ensures
            r == (self@ is Pending),
    {
        match &self.slot {
            Stage::Pending(_) => true,
            _ => false,
        }
    }

    /// Returns `true` if the value is currently initializing, `false`
    /// otherwise.
    pub fn is_init(&self) -> (r: bool)
        ensures
            r == (self@ is InProgress),
    {
        match &self.slot {
            Stage::InProgress => true,
            _ => false,
        }
    }

    /// Returns `true` if the value has already initialized, `false`
    /// otherwise.
    pub fn has_init(&self) -> (r: bool)
        ensures
            r == (self@ is Ready),
    {
        match &self.slot {
            Stage::Ready(_) => true,
            _ => false,
        }
    }
}

/// What one read access does to a cell: from `pre` it moves the cell to
/// `post` and hands out `r`. A `Pending` cell's initializer runs, and `r` is
/// what that one run produced; a `Ready` cell is left exactly as it was and
/// `r` is the stored value; an `InProgress` cell admits no access at all
/// (the claim is held elsewhere). Either way the cell ends `Ready(r)`: a
/// value is handed out only once it is published.
pub open spec fn get_transition<T, F: FnOnce() -> T>(
    pre: Stage<T, F>,
    post: Stage<T, F>,
    r: T,
) -> bool {
    &&& post == Stage::<T, F>::Ready(r)
    &&& match pre {
        Stage::Pending(f) => call_ensures(f, (), r),
        Stage::InProgress => false,
        Stage::Ready(v) => r == v,
    }
}

impl<T, F: FnOnce() -> T> Lazy<T, F> {
    /// Returns a reference to the inner value, running the initializer
    /// first if nothing has run it yet.
    ///
    /// An `InProgress` cell is excluded: with unique ownership of the cell
    /// no claim can be held elsewhere, and the shared-cell drivers wait for
    /// publication instead of re-entering.
    pub fn get(&mut self) -> (r: &T)
        requires
            !(old(self)@ is InProgress),
            old(self)@ matches Stage::Pending(f) ==> call_requires(f, ()),
        ensures
            get_transition(old(self)@, final(self)@, *r),
    {
        let mut taken = Stage::InProgress;
        core::mem::swap(&mut self.slot, &mut taken);
        match taken {
            Stage::Pending(f) => {
                let v = f();
                self.slot = Stage::Ready(v);
            },
            Stage::Ready(v) => {
                self.slot = Stage::Ready(v);
            },
            Stage::InProgress => {},
        }
        match &self.slot {
            Stage::Ready(v) => v,
            _ => vstd::pervasive::unreached(),
        }
    }

    /// Returns a mutable reference to the inner value, running the
    /// initializer first if nothing has run it yet.
    pub fn get_mut(&mut self) -> (r: &mut T)
        requires
            !(old(self)@ is InProgress),
            old(self)@ matches Stage::Pending(f) ==> call_requires(f, ()),
        ensures
            get_transition(old(self)@, Stage::<T, F>::Ready(*r), *r),
            final(self)@ == Stage::<T, F>::Ready(*final(r)),
    {
        let mut taken = Stage::InProgress;
        core::mem::swap(&mut self.slot, &mut taken);
        match taken {
            Stage::Pending(f) => {
                let v = f();
                self.slot = Stage::Ready(v);
            },
            Stage::Ready(v) => {
                self.slot = Stage::Ready(v);
            },
            Stage::InProgress => {},
        }
        match &mut self.slot {
            Stage::Ready(v) => v,
            _ => vstd::pervasive::unreached(),
        }
    }

    /// Returns `Some` with a reference to the value if it has already
    /// initialized, `None` otherwise. Never triggers initialization and
    /// changes nothing.
    pub fn try_get(&self) -> (r: Option<&T>)
        ensures
            self@ matches Stage::Ready(v) ==> (r matches Some(x) && *x == v),
            !(self@ is Ready) ==> r is None,
    {
        match &self.slot {
            Stage::Ready(v) => Some(v),
            _ => None,
        }
    }

    /// Returns `Some` with a mutable reference to the value if it has
    /// already initialized, `None` otherwise. Never triggers
    /// initialization.
    pub fn try_get_mut(&mut self) -> (r: Option<&mut T>)
        ensures
            old(self)@ matches Stage::Ready(v) ==> (r matches Some(m) && *m == v
                && final(self)@ == Stage::<T, F>::Ready(*final(m))),
            !(old(self)@ is Ready) ==> (r is None && final(self)@ == old(self)@),
    {
        match &mut self.slot {
            Stage::Ready(v) => Some(v),
            _ => None,
        }
    }

    /// Consumes the cell and returns the inner value, running the
    /// initializer if nothing has run it yet.
    pub fn into_inner(self) -> (r: T)
        requires
            !(self@ is InProgress),
            self@ matches Stage::Pending(f) ==> call_requires(f, ()),
        ensures
            self@ matches Stage::Pending(f) ==> call_ensures(f, (), r),
            self@ matches Stage::Ready(v) ==> r == v,
    {
        match self.slot {
            Stage::Pending(f) => f(),
            Stage::Ready(v) => v,
            Stage::InProgress => vstd::pervasive::unreached(),
        }
    }

    /// Consumes the cell; returns the value if it has initialized, and the
    /// never-run initializer otherwise, running nothing either way.
    pub fn try_into_inner(self) -> (r: Result<T, F>)
        requires
            !(self@ is InProgress),
        ensures
            self@ matches Stage::Pending(f) ==> r == Result::<T, F>::Err(f),
            self@ matches Stage::Ready(v) ==> r == Result::<T, F>::Ok(v),
    {
        match self.slot {
            Stage::Pending(f) => Err(f),
            Stage::Ready(v) => Ok(v),
            Stage::InProgress => vstd::pervasive::unreached(),
        }
    }
}

impl<T, F> core::convert::From<T> for Lazy<T, F> {
    /// Same as [`Lazy::init`]: the cell starts already initialized.
    fn from(x: T) -> (r: Self) {
        Self::init(x)
    }
}

impl<T, F> vstd::std_specs::convert::FromSpecImpl<T> for Lazy<T, F> {
    open spec fn obeys_from_spec() -> bool {
        true
    }

    closed spec fn from_spec(x: T) -> Self {
        Lazy { slot: Stage::Ready(x) }
    }
}

/// What conversion from a value means: `Lazy::from(x)` is the cell that
/// [`Lazy::init`] builds, already holding `x` as its published value.
pub proof fn lemma_from_is_init<T, F>(x: T)
    ensures
        (<Lazy<T, F> as vstd::std_specs::convert::FromSpec<T>>::from_spec(x))@
            == Stage::<T, F>::Ready(x),
{
}

/// Law (exactly once): on a cell whose initializer has not run, the first
/// read runs it, and the value handed out is a result of that one run;
/// every read after that returns the very same value and moves nothing.
/// The initializer itself cannot run a second time: the first read consumed
/// it, and no later stage holds one.
pub proof fn lemma_exactly_once<T, F: FnOnce() -> T>(
    s0: Stage<T, F>,
    s1: Stage<T, F>,
    s2: Stage<T, F>,
    r1: T,
    r2: T,
)
    requires
        s0 is Pending,
        get_transition(s0, s1, r1),
        get_transition(s1, s2, r2),
    ensures
        s0 matches Stage::Pending(f) ==> call_ensures(f, (), r1),
        s1 == Stage::<T, F>::Ready(r1),
        r2 == r1,
        s2 == s1,
{
}

/// Law (idempotence): a read of an initialized cell returns the stored
/// value and leaves the cell exactly as it was, however often it is
/// repeated.
pub proof fn lemma_get_idempotent<T, F: FnOnce() -> T>(v: T, post: Stage<T, F>, r: T)
    requires
        get_transition(Stage::<T, F>::Ready(v), post, r),
    ensures
        r == v,
        post == Stage::<T, F>::Ready(v),
{
}

/// Law (publication before hand-out): whatever stage a read starts from, it
/// hands a value out only with the cell in the published stage, holding
/// that very value; no read ever exposes a cell whose value is still
/// pending or being produced.
pub proof fn lemma_get_publishes<T, F: FnOnce() -> T>(
    pre: Stage<T, F>,
    post: Stage<T, F>,
    r: T,
)
    requires
        get_transition(pre, post, r),
    ensures
        post == Stage::<T, F>::Ready(r),
        !(pre is InProgress),
{
}

/// The protocol stage code that a cell's stage occupies: the byte a
/// shared-cell driver would hold in its atomic for this stage.
pub open spec fn stage_code<T, F>(s: Stage<T, F>) -> u8 {
    match s {
        Stage::Pending(_) => protocol::UNINIT,
        Stage::InProgress => protocol::INITIALIZING,
        Stage::Ready(_) => protocol::INIT,
    }
}

/// Law (forward motion): a read moves the cell only forward along the
/// protocol's stage order and ends it on the published stage; no access
/// ever regresses a cell.
pub proof fn lemma_get_monotone<T, F: FnOnce() -> T>(
    pre: Stage<T, F>,
    post: Stage<T, F>,
    r: T,
)
    requires
        get_transition(pre, post, r),
    ensures
        stage_code(pre) <= stage_code(post),
        stage_code(post) == protocol::INIT,
{
}

} // verus!
