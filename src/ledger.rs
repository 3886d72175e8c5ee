//! The ledger of outstanding borrowers and the access state of the lent value.
use vstd::prelude::*;
use vstd::string::*;

verus! {

/// The kind of access a borrower asks for.
#[derive(Clone, Copy, Debug, PartialEq, Eq, Structural)]
pub enum AccessKind {
    /// Read-only access; any number may be held at once.
    Shared,
    /// Read-write access; excludes every other access.
    Exclusive,
}

/// The access currently outstanding on the lent value.
#[derive(Clone, Copy, Debug, PartialEq, Eq, Structural)]
pub enum AccessState {
    Free,
    Shared,
    Exclusive,
}

/// Whether a request of `kind` is granted while `state` is outstanding.
pub open spec fn grants(state: AccessState, kind: AccessKind) -> bool {
    match kind {
        AccessKind::Shared => state != AccessState::Exclusive,
        AccessKind::Exclusive => state == AccessState::Free,
    }
}

/// The access state after a request of `kind` was granted.
pub open spec fn granted_state(kind: AccessKind) -> AccessState {
    match kind {
        AccessKind::Shared => AccessState::Shared,
        AccessKind::Exclusive => AccessState::Exclusive,
    }
}

/// Whether `names` fit `state`: no names exactly when the value is free,
/// one name per shared access, one name alone for the exclusive access.
pub open spec fn consistent(names: Seq<Seq<char>>, state: AccessState) -> bool {
    match state {
        AccessState::Free => names.len() == 0,
        AccessState::Shared => names.len() > 0,
        AccessState::Exclusive => names.len() == 1,
    }
}

/// Names and state after `borrower` asked for access of `kind`: recorded
/// at the end if granted, unchanged otherwise.
pub open spec fn acquired(
    names: Seq<Seq<char>>,
    state: AccessState,
    kind: AccessKind,
    borrower: Seq<char>,
) -> (Seq<Seq<char>>, AccessState) {
    if grants(state, kind) {
        (names.push(borrower), granted_state(kind))
    } else {
        (names, state)
    }
}

/// Names and state after the guard of `borrower` was released: the first
/// entry equal to `borrower` goes, and the value is free once none is left.
pub open spec fn released(names: Seq<Seq<char>>, state: AccessState, borrower: Seq<char>) -> (
    Seq<Seq<char>>,
    AccessState,
) {
    let rest = names.remove_value(borrower);
    (rest, if rest.len() == 0 {
        AccessState::Free
    } else {
        state
    })
}

/// A borrower name as `Debug` renders a string: in double quotes, escaped.
pub uninterp spec fn debug_quoted(name: Seq<char>) -> Seq<char>;

/// Relies on `<str as Debug>::fmt` to quote and escape one borrower name.
#[verifier::external_body]
fn quote(name: &String) -> (r: String)
    ensures
        r@ == debug_quoted(name@),
{
    format!("{:?}", name)
}

/// The quoted names joined by ", ".
pub open spec fn joined_names(names: Seq<Seq<char>>) -> Seq<char>
    decreases names.len(),
{
    if names.len() == 0 {
        Seq::empty()
    } else if names.len() == 1 {
        debug_quoted(names[0])
    } else {
        joined_names(names.drop_last()) + ", "@ + debug_quoted(names.last())
    }
}

/// The names as a bracketed list: `["b1", "b2"]`.
pub open spec fn name_list(names: Seq<Seq<char>>) -> Seq<char> {
    "["@ + joined_names(names) + "]"@
}

/// The opening words of a refusal for a request of `kind`.
pub open spec fn denial_prefix(kind: AccessKind) -> Seq<char> {
    match kind {
        AccessKind::Shared => "Failed to borrow immutable reference. Currently borrowed by: "@,
        AccessKind::Exclusive => "Failed to borrow mutable reference. Currently borrowed by: "@,
    }
}

/// The message of a refused request of `kind` while `names` hold access.
pub open spec fn denial_message(kind: AccessKind, names: Seq<Seq<char>>) -> Seq<char> {
    denial_prefix(kind) + name_list(names)
}

/// Renders `names` as a bracketed list of quoted names.
pub fn render_names(names: &Vec<String>) -> (r: String)
    ensures
        r@ == name_list(names@.map_values(|s: String| s@)),
{
    let ghost view = names@.map_values(|s: String| s@);
    let mut text = String::from_str("[");
    let mut i: usize = 0;
    while i < names.len()
        invariant
            0 <= i <= names.len(),
            view == names@.map_values(|s: String| s@),
            text@ == "["@ + joined_names(view.take(i as int)),
        decreases names.len() - i,
    {
        let q = quote(&names[i]);
        proof {
            assert(view.take(i + 1).drop_last() =~= view.take(i as int));
        }
        if i > 0 {
            text.append(", ");
        }
        text.append(q.as_str());
        i = i + 1;
    }
    assert(view.take(names.len() as int) =~= view);
    text.append("]");
    text
}

/// The names of the outstanding borrowers, in the order they acquired
/// access, and the access they hold on the lent value.
pub struct Ledger {
    names: Vec<String>,
    state: AccessState,
}

impl Ledger {
    /// The borrower names, in acquisition order.
    pub closed spec fn names(&self) -> Seq<Seq<char>> {
        self.names@.map_values(|s: String| s@)
    }

    /// The access currently outstanding.
    pub closed spec fn state(&self) -> AccessState {
        self.state
    }

    /// The names fit the access state.
    pub open spec fn wf(&self) -> bool {
        consistent(self.names(), self.state())
    }

    #[verifier::type_invariant]
    closed spec fn inv(&self) -> bool {
        self.wf()
    }

    /// An empty ledger over a free value.
    pub fn new() -> (l: Ledger)
        ensures
            l.wf(),
            l.names() == Seq::<Seq<char>>::empty(),
            l.state() == AccessState::Free,
    {
        let l = Ledger { names: Vec::new(), state: AccessState::Free };
        assert(l.names() =~= Seq::<Seq<char>>::empty());
        l
    }

    /// The access currently outstanding.
    pub fn access(&self) -> (r: AccessState)
        ensures
            r == self.state(),
            self.wf(),
    {
        proof {
            use_type_invariant(self);
        }
        self.state
    }

    /// The number of outstanding borrowers.
    pub fn len(&self) -> (r: usize)
        ensures
            r == self.names().len(),
    {
        self.names.len()
    }

    /// A copy of the borrower names, in acquisition order.
    pub fn borrowers(&self) -> (r: Vec<String>)
        ensures
            r@.map_values(|s: String| s@) == self.names(),
    {
        let mut out: Vec<String> = Vec::new();
        let mut i: usize = 0;
        while i < self.names.len()
            invariant
                0 <= i <= self.names@.len(),
                out@.map_values(|s: String| s@) =~= self.names().take(i as int),
            decreases self.names@.len() - i,
        {
            let ghost prev = out@;
            out.push(self.names[i].clone());
            assert(out@.map_values(|s: String| s@) =~= prev.map_values(|s: String| s@).push(
                self.names()[i as int],
            ));
            assert(self.names().take(i + 1) =~= self.names().take(i as int).push(
                self.names()[i as int],
            ));
            i = i + 1;
        }
        assert(self.names().take(i as int) =~= self.names());
        out
    }

    /// The message that refuses a request of `kind`, listing the current
    /// borrowers in acquisition order.
    pub fn denial(&self, kind: AccessKind) -> (r: String)
        ensures
            r@ == denial_message(kind, self.names()),
    {
        let mut text = match kind {
            AccessKind::Shared => String::from_str(
                "Failed to borrow immutable reference. Currently borrowed by: ",
            ),
            AccessKind::Exclusive => String::from_str(
                "Failed to borrow mutable reference. Currently borrowed by: ",
            ),
        };
        let list = render_names(&self.names);
        text.append(list.as_str());
        text
    }

    /// Records `borrower` if a request of `kind` is granted in the current
    /// state; otherwise leaves the ledger as it is and returns the refusal.
    pub fn acquire(&mut self, kind: AccessKind, borrower: &str) -> (r: Result<(), String>)
        ensures
            old(self).wf(),
            (final(self).names(), final(self).state()) == acquired(
                old(self).names(),
                old(self).state(),
                kind,
                borrower@,
            ),
            r is Ok <==> grants(old(self).state(), kind),
            r matches Err(m) ==> m@ == denial_message(kind, old(self).names()),
    {
        proof {
            use_type_invariant(&*self);
        }
        let ok = match kind {
            AccessKind::Shared => !matches!(self.state, AccessState::Exclusive),
            AccessKind::Exclusive => matches!(self.state, AccessState::Free),
        };
        if !ok {
            return Err(self.denial(kind));
        }
        let mut taken = Ledger::new();
        std::mem::swap(self, &mut taken);
        let Ledger { mut names, state: _ } = taken;
        let ghost before = names@;
        names.push(borrower.to_owned());
        assert(names@.map_values(|s: String| s@) =~= before.map_values(|s: String| s@).push(
            borrower@,
        ));
        let state = match kind {
            AccessKind::Shared => AccessState::Shared,
            AccessKind::Exclusive => AccessState::Exclusive,
        };
        *self = Ledger { names, state };
        Ok(())
    }

    /// Removes the first entry equal to `borrower`, if there is one; the
    /// value becomes free when the last entry goes. Returns whether an
    /// entry was found.
    pub fn release(&mut self, borrower: &String) -> (found: bool)
        ensures
            old(self).wf(),
            found == old(self).names().contains(borrower@),
            found ==> final(self).names().len() == old(self).names().len() - 1,
            !found ==> final(self).names() == old(self).names(),
            (final(self).names(), final(self).state()) == released(
                old(self).names(),
                old(self).state(),
                borrower@,
            ),
    {
        proof {
            use_type_invariant(&*self);
            self.names().index_of_first_ensures(borrower@);
        }
        let mut found = false;
        let mut i: usize = 0;
        while i < self.names.len() && !found
            invariant
                0 <= i <= self.names@.len(),
                found ==> i < self.names@.len() && self.names()[i as int] == borrower@,
                forall|j: int| 0 <= j < i ==> self.names()[j] != borrower@,
            decreases self.names@.len() - i + (if found { 0int } else { 1int }),
        {
            if self.names[i] == *borrower {
                found = true;
            } else {
                i = i + 1;
            }
        }
        if !found {
            assert(!self.names().contains(borrower@));
            return false;
        }
        let ghost before = self.names();
        let mut taken = Ledger::new();
        std::mem::swap(self, &mut taken);
        let Ledger { mut names, state } = taken;
        let ghost raw = names@;
        names.remove(i);
        assert(names@.map_values(|s: String| s@) =~= raw.map_values(|s: String| s@).remove(
            i as int,
        ));
        let state = if names.len() == 0 {
            AccessState::Free
        } else {
            state
        };
        *self = Ledger { names, state };
        true
    }
}

} // verus!
