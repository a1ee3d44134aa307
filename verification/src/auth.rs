//! Password authentication with an attempt counter and a lockout.

use vstd::prelude::*;

verus! {

/// Number of symbols in a password.
pub const PASSWORD_LEN: usize = 4;

/// Number of wrong entries in a row that starts a lockout.
pub const MAX_ATTEMPTS: u8 = 3;

/// What the authenticator answers to a submitted symbol.
#[derive(Clone, Copy, Debug, PartialEq, Eq)]
pub enum EntryResult {
    /// The symbol was buffered; the entry is not complete yet.
    Pending,
    /// The symbol completed an entry that equals the password.
    Correct,
    /// The symbol completed a wrong entry; the field is the number of wrong
    /// entries in a row, this one included.
    Incorrect(u8),
    /// The symbol completed a wrong entry that reached the attempt limit; the
    /// authenticator is now locked.
    LockedOut,
    /// The symbol was ignored: the authenticator is locked or has no password.
    Rejected,
}

/// The authenticator as a mathematical value.
#[verifier::ext_equal]
pub struct AuthModel {
    /// The stored password, once it has been set.
    pub password: Option<Seq<char>>,
    /// The symbols of the entry in progress.
    pub entry: Seq<char>,
    /// Wrong entries in a row since the last success or lockout.
    pub attempts: nat,
    /// Whether a lockout is in force.
    pub locked: bool,
}

impl AuthModel {
    /// Invariant of the authenticator between calls: a password has exactly
    /// four symbols, the entry in progress is shorter than a password, the
    /// counter is below the limit, and an authenticator that is locked or has
    /// no password holds no entry and no count.
    pub open spec fn wf(self) -> bool {
        &&& self.password matches Some(p) ==> p.len() == PASSWORD_LEN
        &&& self.entry.len() < PASSWORD_LEN
        &&& self.attempts < MAX_ATTEMPTS
        &&& self.locked ==> self.password is Some
        &&& self.locked || self.password is None ==> self.entry.len() == 0 && self.attempts == 0
    }

    /// The authenticator at power-on: no password, nothing entered.
    pub open spec fn initial() -> AuthModel {
        AuthModel { password: None, entry: Seq::empty(), attempts: 0, locked: false }
    }

    /// Storing a password: it is kept if none was stored before, and refused
    /// otherwise. The flag tells which.
    pub open spec fn set_password(self, sequence: Seq<char>) -> (AuthModel, bool) {
        if self.password is None {
            (AuthModel { password: Some(sequence), ..self }, true)
        } else {
            (self, false)
        }
    }

    /// Submitting one symbol.
    ///
    /// A locked authenticator, or one without a password, ignores the symbol.
    /// Otherwise the symbol joins the entry. An entry of four symbols is
    /// compared with the password and always cleared: a match resets the
    /// counter; a mismatch increments it, and on reaching the limit the
    /// counter is reset and the lockout begins.
    pub open spec fn submit(self, symbol: char) -> (AuthModel, EntryResult) {
        if self.locked || self.password is None {
            (self, EntryResult::Rejected)
        } else {
            let entry = self.entry.push(symbol);
            if entry.len() < PASSWORD_LEN {
                (AuthModel { entry, ..self }, EntryResult::Pending)
            } else if entry == self.password.unwrap() {
                (AuthModel { entry: Seq::empty(), attempts: 0, ..self }, EntryResult::Correct)
            } else if self.attempts + 1 >= MAX_ATTEMPTS {
                (
                    AuthModel { entry: Seq::empty(), attempts: 0, locked: true, ..self },
                    EntryResult::LockedOut,
                )
            } else {
                (
                    AuthModel { entry: Seq::empty(), attempts: self.attempts + 1, ..self },
                    EntryResult::Incorrect((self.attempts + 1) as u8),
                )
            }
        }
    }

    /// The end of a lockout.
    pub open spec fn expire_lockout(self) -> AuthModel {
        AuthModel { locked: false, ..self }
    }

    /// The authenticator after the first `k` of `symbols` have been submitted
    /// in order.
    pub open spec fn after(self, symbols: Seq<char>, k: int) -> AuthModel
        decreases k,
    {
        if k <= 0 {
            self
        } else {
            self.after(symbols, k - 1).submit(symbols[k - 1]).0
        }
    }

    /// The answer to `symbols[k]` when `symbols` are submitted in order.
    pub open spec fn result_at(self, symbols: Seq<char>, k: int) -> EntryResult {
        self.after(symbols, k).submit(symbols[k]).1
    }

    /// Whether the authenticator is ready for a fresh entry: it has a
    /// password, is not locked, and holds no partial entry.
    pub open spec fn ready(self) -> bool {
        &&& self.wf()
        &&& self.password is Some
        &&& !self.locked
        &&& self.entry.len() == 0
    }
}

/// Every operation keeps the invariant.
pub proof fn operations_keep_invariant(auth: AuthModel, sequence: Seq<char>, symbol: char)
    requires
        auth.wf(),
        sequence.len() == PASSWORD_LEN,
    ensures
        AuthModel::initial().wf(),
        auth.set_password(sequence).0.wf(),
        auth.submit(symbol).0.wf(),
        auth.expire_lockout().wf(),
{
}

/// The first three symbols of a fresh entry are buffered and answered with
/// `Pending`; nothing else changes.
pub proof fn partial_entry_is_buffered(auth: AuthModel, symbols: Seq<char>, k: int)
    requires
        auth.ready(),
        0 <= k < PASSWORD_LEN,
        k <= symbols.len(),
    ensures
        auth.after(symbols, k) == (AuthModel { entry: symbols.take(k), ..auth }),
        k < symbols.len() && k + 1 < PASSWORD_LEN ==> auth.result_at(symbols, k)
            == EntryResult::Pending,
    decreases k,
{
    if k > 0 {
        partial_entry_is_buffered(auth, symbols, k - 1);
    }
}

/// Entering the stored password symbol by symbol is answered with `Correct`
/// on the fourth symbol (and `Pending` before), leaves the counter at zero and
/// the entry buffer empty.
pub proof fn correct_entry_is_accepted(auth: AuthModel, symbols: Seq<char>)
    requires
        auth.ready(),
        auth.password == Some(symbols),
    ensures
        auth.result_at(symbols, 0) == EntryResult::Pending,
        auth.result_at(symbols, 1) == EntryResult::Pending,
        auth.result_at(symbols, 2) == EntryResult::Pending,
        auth.result_at(symbols, 3) == EntryResult::Correct,
        auth.after(symbols, 4) == (AuthModel { entry: Seq::empty(), attempts: 0, ..auth }),
{
    partial_entry_is_buffered(auth, symbols, 0);
    partial_entry_is_buffered(auth, symbols, 1);
    partial_entry_is_buffered(auth, symbols, 2);
    partial_entry_is_buffered(auth, symbols, 3);
    assert(symbols.take(3).push(symbols[3]) =~= symbols);
}

/// Entering four symbols that differ from the password in at least one
/// position is answered on the fourth symbol, and the entry buffer is empty
/// afterwards. Below the attempt limit the answer is `Incorrect` with the
/// prior count plus one, which becomes the new count. At the limit the answer
/// is `LockedOut`, the count returns to zero at once, and the lockout begins.
pub proof fn wrong_entry_is_counted(auth: AuthModel, symbols: Seq<char>)
    requires
        auth.ready(),
        symbols.len() == PASSWORD_LEN,
        auth.password != Some(symbols),
    ensures
        auth.result_at(symbols, 0) == EntryResult::Pending,
        auth.result_at(symbols, 1) == EntryResult::Pending,
        auth.result_at(symbols, 2) == EntryResult::Pending,
        auth.attempts + 1 < MAX_ATTEMPTS ==> {
            &&& auth.result_at(symbols, 3) == EntryResult::Incorrect((auth.attempts + 1) as u8)
            &&& auth.after(symbols, 4) == (AuthModel {
                entry: Seq::empty(),
                attempts: auth.attempts + 1,
                ..auth
            })
        },
        auth.attempts + 1 >= MAX_ATTEMPTS ==> {
            &&& auth.result_at(symbols, 3) == EntryResult::LockedOut
            &&& auth.after(symbols, 4) == (AuthModel {
                entry: Seq::empty(),
                attempts: 0,
                locked: true,
                ..auth
            })
        },
        auth.after(symbols, 4).entry.len() == 0,
        auth.after(symbols, 4).wf(),
{
    partial_entry_is_buffered(auth, symbols, 0);
    partial_entry_is_buffered(auth, symbols, 1);
    partial_entry_is_buffered(auth, symbols, 2);
    partial_entry_is_buffered(auth, symbols, 3);
    assert(symbols.take(3).push(symbols[3]) =~= symbols);
}

/// Three wrong entries in a row, starting from a count of zero: the first two
/// are answered with `Incorrect(1)` and `Incorrect(2)`, the third with
/// `LockedOut`, after which the counter is zero again and the authenticator
/// is locked.
pub proof fn third_wrong_entry_locks(
    auth: AuthModel,
    first: Seq<char>,
    second: Seq<char>,
    third: Seq<char>,
)
    requires
        auth.ready(),
        auth.attempts == 0,
        first.len() == PASSWORD_LEN && auth.password != Some(first),
        second.len() == PASSWORD_LEN && auth.password != Some(second),
        third.len() == PASSWORD_LEN && auth.password != Some(third),
    ensures
        ({
            let after_first = auth.after(first, 4);
            let after_second = after_first.after(second, 4);
            let after_third = after_second.after(third, 4);
            &&& auth.result_at(first, 3) == EntryResult::Incorrect(1)
            &&& after_first.result_at(second, 3) == EntryResult::Incorrect(2)
            &&& after_second.result_at(third, 3) == EntryResult::LockedOut
            &&& after_third.attempts == 0
            &&& after_third.locked
            &&& after_third.entry.len() == 0
            &&& after_third.password == auth.password
        }),
{
    wrong_entry_is_counted(auth, first);
    let after_first = auth.after(first, 4);
    wrong_entry_is_counted(after_first, second);
    let after_second = after_first.after(second, 4);
    wrong_entry_is_counted(after_second, third);
}

/// While the lockout is in force, submissions change nothing and are all
/// answered with `Rejected`, however many there are.
pub proof fn locked_ignores_submissions(auth: AuthModel, symbols: Seq<char>, k: int)
    requires
        auth.locked,
        0 <= k,
    ensures
        auth.after(symbols, k) == auth,
        auth.result_at(symbols, k) == EntryResult::Rejected,
    decreases k,
{
    if k > 0 {
        locked_ignores_submissions(auth, symbols, k - 1);
    }
}

/// Whether a complete entry equals the password.
fn entry_matches(entry: &Vec<char>, password: &[char; 4]) -> (same: bool)
    requires
        entry@.len() == PASSWORD_LEN,
    ensures
        same == (entry@ == password@),
{
    let mut i: usize = 0;
    while i < PASSWORD_LEN
        invariant
            i <= PASSWORD_LEN,
            entry@.len() == PASSWORD_LEN,
            forall|j: int| 0 <= j < i ==> entry@[j] == password@[j],
        decreases PASSWORD_LEN - i,
    {
        if entry[i] != password[i] {
            return false;
        }
        i = i + 1;
    }
    assert(entry@ =~= password@);
    true
}

/// Owns the password, the entry buffer, the attempt counter and the lockout
/// flag, and decides whether an entry is correct.
#[derive(Clone, Debug)]
pub struct Authenticator {
    password: Option<[char; 4]>,
    entry: Vec<char>,
    attempts: u8,
    locked: bool,
}

impl View for Authenticator {
    type V = AuthModel;

    closed spec fn view(&self) -> AuthModel {
        AuthModel {
            password: match self.password {
                Some(p) => Some(p@),
                None => None,
            },
            entry: self.entry@,
            attempts: self.attempts as nat,
            locked: self.locked,
        }
    }
}

impl Authenticator {
    /// An authenticator without a password, as at power-on.
    pub fn new() -> (auth: Authenticator)
        ensures
            auth@ == AuthModel::initial(),
            auth@.wf(),
    {
        Authenticator { password: None, entry: Vec::new(), attempts: 0, locked: false }
    }

    /// Stores the password. The password is set once: a second call changes
    /// nothing and returns `false`.
    pub fn set_password(&mut self, sequence: [char; 4]) -> (stored: bool)
        requires
            old(self)@.wf(),
        ensures
            final(self)@.wf(),
            (final(self)@, stored) == old(self)@.set_password(sequence@),
            stored == (old(self)@.password is None),
    {
        match self.password {
            Some(_) => false,
            None => {
                self.password = Some(sequence);
                true
            },
        }
    }

    /// Submits one symbol and reports the outcome.
    pub fn submit(&mut self, symbol: char) -> (result: EntryResult)
        requires
            old(self)@.wf(),
        ensures
            final(self)@.wf(),
            (final(self)@, result) == old(self)@.submit(symbol),
    {
        if self.locked {
            return EntryResult::Rejected;
        }
        let password = match self.password {
            Some(p) => p,
            None => {
                return EntryResult::Rejected;
            },
        };
        self.entry.push(symbol);
        if self.entry.len() < PASSWORD_LEN {
            return EntryResult::Pending;
        }
        let same = entry_matches(&self.entry, &password);
        self.entry.clear();
        if same {
            self.attempts = 0;
            EntryResult::Correct
        } else {
            let count: u8 = self.attempts + 1;
            if count >= MAX_ATTEMPTS {
                self.attempts = 0;
                self.locked = true;
                EntryResult::LockedOut
            } else {
                self.attempts = count;
                EntryResult::Incorrect(count)
            }
        }
    }

    /// Ends the lockout; the authenticator accepts symbols again. Without a
    /// lockout in force the call changes nothing.
    pub fn on_lockout_expired(&mut self)
        requires
            old(self)@.wf(),
        ensures
            final(self)@.wf(),
            final(self)@ == old(self)@.expire_lockout(),
    {
        self.locked = false;
    }

    /// Whether a password has been stored.
    pub fn has_password(&self) -> (set: bool)
        ensures
            set == (self@.password is Some),
    {
        self.password.is_some()
    }

    /// Whether a lockout is in force.
    pub fn is_locked(&self) -> (locked: bool)
        ensures
            locked == self@.locked,
    {
        self.locked
    }

    /// Wrong entries in a row since the last success or lockout.
    pub fn attempts(&self) -> (count: u8)
        ensures
            count == self@.attempts,
    {
        self.attempts
    }

    /// Number of symbols in the entry in progress.
    pub fn entry_len(&self) -> (len: usize)
        ensures
            len == self@.entry.len(),
    {
        self.entry.len()
    }
}

} // verus!
