//! A toy bank: named users with balances and credit lines.
//!
//! Users are held in a vector and looked up by name; a name refers to its
//! first occurrence, so a vector with unique names behaves as a map.
use vstd::prelude::*;

verus! {

pub enum Error {
    NotEnoughFunds,
    UserDoesNotExists,
    BadConversion,
    Overflow,
}

#[derive(Debug, Default, Clone, Eq, PartialEq)]
pub struct User {
    pub name: String,
    pub credit_line: u64,
    pub balance: i64,
}

#[derive(Debug)]
pub struct Bank {
    pub name: String,
    pub users: Vec<User>,
    pub credit_interst: u64,
    pub debit_interst: u64,
}

#[derive(Debug, Default, Eq, PartialEq, Structural)]
pub struct BankBalance {
    pub liabilities: u64,
    pub assets: u64,
}

/// The index of the first user called `name`, or -1 when there is none.
pub open spec fn user_index(users: Seq<User>, name: Seq<char>) -> int
    decreases users.len(),
{
    if users.len() == 0 {
        -1
    } else if users[0].name@ == name {
        0
    } else {
        let rest: int = user_index(users.skip(1), name);
        if rest == -1 {
            -1
        } else {
            rest + 1
        }
    }
}

pub proof fn lemma_user_index_in_range(users: Seq<User>, name: Seq<char>)
    ensures
        user_index(users, name) == -1 || (0 <= user_index(users, name) < users.len()
            && users[user_index(users, name)].name@ == name),
    decreases users.len(),
{
    if users.len() != 0 && users[0].name@ != name {
        lemma_user_index_in_range(users.skip(1), name);
    }
}

pub proof fn lemma_user_index_first_match(users: Seq<User>, name: Seq<char>, i: int)
    requires
        0 <= i < users.len(),
        users[i].name@ == name,
        forall|j: int| 0 <= j < i ==> users[j].name@ != name,
    ensures
        user_index(users, name) == i,
    decreases i,
{
    if i > 0 {
        lemma_user_index_first_match(users.skip(1), name, i - 1);
    }
}

pub proof fn lemma_user_index_no_match(users: Seq<User>, name: Seq<char>)
    requires
        forall|j: int| 0 <= j < users.len() ==> users[j].name@ != name,
    ensures
        user_index(users, name) == -1,
    decreases users.len(),
{
    if users.len() != 0 {
        lemma_user_index_no_match(users.skip(1), name);
    }
}

/// Sum of the positive balances: what the bank owes its users.
pub open spec fn sum_liabilities(users: Seq<User>) -> int
    decreases users.len(),
{
    if users.len() == 0 {
        0
    } else {
        sum_liabilities(users.drop_last()) + (if users.last().balance > 0 {
            users.last().balance as int
        } else {
            0int
        })
    }
}

/// Sum of the magnitudes of the negative balances: what users owe the bank.
pub open spec fn sum_assets(users: Seq<User>) -> int
    decreases users.len(),
{
    if users.len() == 0 {
        0
    } else {
        sum_assets(users.drop_last()) + (if users.last().balance < 0 {
            -(users.last().balance as int)
        } else {
            0int
        })
    }
}

proof fn lemma_sum_prefix_bounds(users: Seq<User>, i: int)
    requires
        0 <= i <= users.len(),
    ensures
        0 <= sum_liabilities(users.take(i)) <= sum_liabilities(users),
        0 <= sum_assets(users.take(i)) <= sum_assets(users),
    decreases users.len() - i,
{
    if i == users.len() {
        assert(users.take(i) =~= users);
        lemma_sum_nonneg(users);
    } else {
        lemma_sum_prefix_bounds(users, i + 1);
        assert(users.take(i + 1).drop_last() =~= users.take(i));
        lemma_sum_nonneg(users.take(i));
    }
}

proof fn lemma_sum_nonneg(users: Seq<User>)
    ensures
        sum_liabilities(users) >= 0,
        sum_assets(users) >= 0,
    decreases users.len(),
{
    if users.len() != 0 {
        lemma_sum_nonneg(users.drop_last());
    }
}

/// Adding `amount` to the balance of the user called `name`: the new user
/// vector on success, or the error the attempt runs into.
pub open spec fn spec_add_to_balance(users: Seq<User>, name: Seq<char>, amount: int) -> Result<
    Seq<User>,
    Error,
> {
    let idx: int = user_index(users, name);
    if idx == -1 {
        Err(Error::UserDoesNotExists)
    } else if users[idx].balance + amount < i64::MIN || users[idx].balance + amount > i64::MAX {
        Err(Error::Overflow)
    } else {
        Ok(
            users.update(
                idx,
                (User {
                    name: users[idx].name,
                    credit_line: users[idx].credit_line,
                    balance: (users[idx].balance + amount) as i64,
                }),
            ),
        )
    }
}

/// The outcome of a transfer: the result code paired with the user vector
/// it leaves behind.  When crediting the destination fails after the
/// origin was already debited, the debit stands, as the sequence of
/// checked updates performs it.
pub open spec fn spec_transfer_funds(
    users: Seq<User>,
    amount: int,
    origin: Seq<char>,
    destination: Seq<char>,
) -> (Result<(), Error>, Seq<User>) {
    if amount > i64::MAX {
        (Err(Error::BadConversion), users)
    } else if user_index(users, origin) == -1 || user_index(users, destination) == -1 {
        (Err(Error::UserDoesNotExists), users)
    } else {
        let oi: int = user_index(users, origin);
        let ocl: int = users[oi].credit_line as int;
        if ocl > i64::MAX {
            (Err(Error::BadConversion), users)
        } else if users[oi].balance - ocl < i64::MIN {
            (Err(Error::Overflow), users)
        } else if users[oi].balance - ocl >= -ocl {
            match spec_add_to_balance(users, origin, -amount) {
                Ok(users1) => match spec_add_to_balance(users1, destination, amount) {
                    Ok(users2) => (Ok(()), users2),
                    Err(e) => (Err(e), users1),
                },
                Err(e) => (Err(e), users),
            }
        } else {
            (Err(Error::NotEnoughFunds), users)
        }
    }
}

/// The balance after one round of interest, in hundredths of a percent:
/// positive balances grow by the debit rate, negative balances by the
/// credit rate, with the quotient truncated toward zero.
pub open spec fn spec_accrued(balance: int, debit_interst: int, credit_interst: int) -> int {
    if balance > 0 {
        balance + balance * debit_interst / 10000
    } else if balance < 0 {
        balance - (-balance) * credit_interst / 10000
    } else {
        0
    }
}

/// One step of a merge: a user whose name is already present adds to the
/// existing balance, a new name is appended at the end.
pub open spec fn spec_merge_one(users: Seq<User>, u: User) -> Seq<User> {
    let idx: int = user_index(users, u.name@);
    if idx == -1 {
        users.push(u)
    } else {
        users.update(
            idx,
            (User {
                name: users[idx].name,
                credit_line: users[idx].credit_line,
                balance: (users[idx].balance + u.balance) as i64,
            }),
        )
    }
}

/// Whether one merge step stays within the machine's balance bounds.
pub open spec fn spec_merge_one_ok(users: Seq<User>, u: User) -> bool {
    let idx: int = user_index(users, u.name@);
    idx == -1 || i64::MIN <= users[idx].balance + u.balance <= i64::MAX
}

/// Whether every step of merging `incoming` into `users`, first to last,
/// stays within the machine's balance bounds.
pub open spec fn spec_merge_ok(users: Seq<User>, incoming: Seq<User>) -> bool
    decreases incoming.len(),
{
    incoming.len() == 0 || (spec_merge_one_ok(users, incoming[0]) && spec_merge_ok(
        spec_merge_one(users, incoming[0]),
        incoming.skip(1),
    ))
}

/// The user vector after merging `incoming` into `users`, first to last.
pub open spec fn spec_merge(users: Seq<User>, incoming: Seq<User>) -> Seq<User>
    decreases incoming.len(),
{
    if incoming.len() == 0 {
        users
    } else {
        spec_merge(spec_merge_one(users, incoming[0]), incoming.skip(1))
    }
}

impl Bank {
    /// Looks up the first user with the given name.
    fn find_user_index(users: &Vec<User>, name: &String) -> (r: Option<usize>)
        ensures
            match r {
                Some(i) => 0 <= i < users@.len() && user_index(users@, name@) == i,
                None => user_index(users@, name@) == -1,
            },
    {
        let mut i: usize = 0;
        while i < users.len()
            invariant
                0 <= i <= users@.len(),
                forall|j: int| 0 <= j < i ==> users@[j].name@ != name@,
            decreases users@.len() - i,
        {
            if users[i].name == *name {
                proof {
                    lemma_user_index_first_match(users@, name@, i as int);
                }
                return Some(i);
            }
            i = i + 1;
        }
        proof {
            lemma_user_index_no_match(users@, name@);
        }
        None
    }

    pub fn calc_balance(&mut self) -> (r: BankBalance)
        requires
            sum_liabilities(old(self).users@) <= u64::MAX,
            sum_assets(old(self).users@) <= u64::MAX,
        ensures
            *final(self) == *old(self),
            r.liabilities == sum_liabilities(old(self).users@),
            r.assets == sum_assets(old(self).users@),
    {
        let mut liabilities: u64 = 0;
        let mut assets: u64 = 0;
        let mut i: usize = 0;
        while i < self.users.len()
            invariant
                *self == *old(self),
                sum_liabilities(self.users@) <= u64::MAX,
                sum_assets(self.users@) <= u64::MAX,
                0 <= i <= self.users@.len(),
                liabilities == sum_liabilities(self.users@.take(i as int)),
                assets == sum_assets(self.users@.take(i as int)),
            decreases self.users@.len() - i,
        {
            proof {
                lemma_sum_prefix_bounds(self.users@, i + 1);
                assert(self.users@.take(i + 1).drop_last() =~= self.users@.take(i as int));
                assert(self.users@.take(i + 1).last() == self.users@[i as int]);
            }
            let balance: i64 = self.users[i].balance;
            if balance > 0 {
                liabilities = liabilities + (balance as u64);
            } else if balance < 0 {
                assets = assets + ((-(balance as i128)) as u64);
            }
            i = i + 1;
        }
        proof {
            assert(self.users@.take(i as int) =~= self.users@);
        }
        BankBalance { liabilities, assets }
    }

    fn add_to_balance(&mut self, origin: &String, amount: i64) -> (r: Result<(), Error>)
        ensures
            final(self).name == old(self).name,
            final(self).credit_interst == old(self).credit_interst,
            final(self).debit_interst == old(self).debit_interst,
            match r {
                Ok(()) => spec_add_to_balance(old(self).users@, origin@, amount as int) == Ok::<
                    Seq<User>,
                    Error,
                >(final(self).users@),
                Err(e) => spec_add_to_balance(old(self).users@, origin@, amount as int) == Err::<
                    Seq<User>,
                    Error,
                >(e) && final(self).users@ == old(self).users@,
            },
    {
        proof {
            lemma_user_index_in_range(self.users@, origin@);
        }
        match Self::find_user_index(&self.users, origin) {
            None => Err(Error::UserDoesNotExists),
            Some(i) => {
                let balance: i64 = self.users[i].balance;
                match balance.checked_add(amount) {
                    None => Err(Error::Overflow),
                    Some(new_balance) => {
                        let user = User {
                            name: self.users[i].name.clone(),
                            credit_line: self.users[i].credit_line,
                            balance: new_balance,
                        };
                        self.users[i] = user;
                        Ok(())
                    },
                }
            },
        }
    }

    pub fn transfer_funds(&mut self, amount: u64, origin: &String, destination: &String) -> (r:
        Result<(), Error>)
        ensures
            final(self).name == old(self).name,
            final(self).credit_interst == old(self).credit_interst,
            final(self).debit_interst == old(self).debit_interst,
            ({
                let outcome = spec_transfer_funds(
                    old(self).users@,
                    amount as int,
                    origin@,
                    destination@,
                );
                r == outcome.0 && final(self).users@ == outcome.1
            }),
    {
        if amount > i64::MAX as u64 {
            return Err(Error::BadConversion);
        }
        let amount: i64 = amount as i64;
        let oi: usize = match Self::find_user_index(&self.users, origin) {
            None => {
                return Err(Error::UserDoesNotExists);
            },
            Some(i) => i,
        };
        if Self::find_user_index(&self.users, destination).is_none() {
            return Err(Error::UserDoesNotExists);
        }
        if self.users[oi].credit_line > i64::MAX as u64 {
            return Err(Error::BadConversion);
        }
        let origin_credit_line: i64 = self.users[oi].credit_line as i64;
        let diff: i64 = match self.users[oi].balance.checked_sub(origin_credit_line) {
            None => {
                return Err(Error::Overflow);
            },
            Some(d) => d,
        };
        if diff >= -origin_credit_line {
            match self.add_to_balance(origin, -amount) {
                Err(e) => Err(e),
                Ok(()) => match self.add_to_balance(destination, amount) {
                    Err(e) => Err(e),
                    Ok(()) => Ok(()),
                },
            }
        } else {
            Err(Error::NotEnoughFunds)
        }
    }

    pub fn accrue_interest(&mut self)
        requires
            forall|i: int| 0 <= i < old(self).users@.len() ==> i64::MIN <= #[trigger] spec_accrued(
                old(self).users@[i].balance as int,
                old(self).debit_interst as int,
                old(self).credit_interst as int,
            ) <= i64::MAX,
        ensures
            final(self).name == old(self).name,
            final(self).credit_interst == old(self).credit_interst,
            final(self).debit_interst == old(self).debit_interst,
            final(self).users@.len() == old(self).users@.len(),
            forall|i: int| 0 <= i < old(self).users@.len() ==> final(self).users@[i] == (User {
                name: old(self).users@[i].name,
                credit_line: old(self).users@[i].credit_line,
                balance: spec_accrued(
                    old(self).users@[i].balance as int,
                    old(self).debit_interst as int,
                    old(self).credit_interst as int,
                ) as i64,
            }),
    {
        let debit: u64 = self.debit_interst;
        let credit: u64 = self.credit_interst;
        let mut i: usize = 0;
        while i < self.users.len()
            invariant
                0 <= i <= self.users@.len(),
                self.name == old(self).name,
                self.credit_interst == old(self).credit_interst,
                self.debit_interst == old(self).debit_interst,
                debit == old(self).debit_interst,
                credit == old(self).credit_interst,
                self.users@.len() == old(self).users@.len(),
                forall|j: int| i <= j < self.users@.len() ==> self.users@[j] == old(
                    self,
                ).users@[j],
                forall|j: int| 0 <= j < i ==> self.users@[j] == (User {
                    name: old(self).users@[j].name,
                    credit_line: old(self).users@[j].credit_line,
                    balance: spec_accrued(
                        old(self).users@[j].balance as int,
                        old(self).debit_interst as int,
                        old(self).credit_interst as int,
                    ) as i64,
                }),
                forall|j: int| 0 <= j < self.users@.len() ==> i64::MIN
                    <= #[trigger] spec_accrued(
                    old(self).users@[j].balance as int,
                    old(self).debit_interst as int,
                    old(self).credit_interst as int,
                ) <= i64::MAX,
            decreases self.users@.len() - i,
        {
            let balance: i64 = self.users[i].balance;
            let ghost b: int = balance as int;
            proof {
                assert(self.users@[i as int] == old(self).users@[i as int]);
                assert(i64::MIN <= spec_accrued(
                    old(self).users@[i as int].balance as int,
                    old(self).debit_interst as int,
                    old(self).credit_interst as int,
                ) <= i64::MAX);
            }
            if balance > 0 {
                proof {
                    assert(b * (debit as int) >= 0 && b * (debit as int)
                        < 0x8000_0000_0000_0000_0000_0000_0000_0000) by (nonlinear_arith)
                        requires
                            0 < b <= 0x7fff_ffff_ffff_ffff,
                            0 <= debit <= 0xffff_ffff_ffff_ffff,
                    ;
                }
                let q: u128 = (balance as u128) * (debit as u128) / 10000;
                let nb: i64 = balance + (q as i64);
                let element = &mut self.users[i];
                element.balance = nb;
            } else if balance < 0 {
                proof {
                    assert((-b) * (credit as int) >= 0 && (-b) * (credit as int)
                        < 0x8000_0000_0000_0000_0000_0000_0000_0000) by (nonlinear_arith)
                        requires
                            0 < -b <= 0x8000_0000_0000_0000,
                            0 <= credit <= 0xffff_ffff_ffff_ffff,
                    ;
                }
                let m: u128 = (-(balance as i128)) as u128;
                let q: u128 = m * (credit as u128) / 10000;
                let nb: i64 = ((balance as i128) - (q as i128)) as i64;
                let element = &mut self.users[i];
                element.balance = nb;
            }
            i = i + 1;
        }
    }

    pub fn merge_bank(&mut self, bank: Bank)
        requires
            spec_merge_ok(old(self).users@, bank.users@),
        ensures
            final(self).name == old(self).name,
            final(self).credit_interst == old(self).credit_interst,
            final(self).debit_interst == old(self).debit_interst,
            final(self).users@ == spec_merge(old(self).users@, bank.users@),
    {
        let mut incoming: Vec<User> = bank.users;
        while incoming.len() > 0
            invariant
                self.name == old(self).name,
                self.credit_interst == old(self).credit_interst,
                self.debit_interst == old(self).debit_interst,
                spec_merge_ok(self.users@, incoming@),
                spec_merge(self.users@, incoming@) == spec_merge(old(self).users@, bank.users@),
            decreases incoming@.len(),
        {
            let ghost incoming_before: Seq<User> = incoming@;
            let ghost users_before: Seq<User> = self.users@;
            let u = incoming.remove(0);
            proof {
                assert(incoming_before.skip(1) =~= incoming@);
                assert(spec_merge_one_ok(users_before, u));
            }
            match Self::find_user_index(&self.users, &u.name) {
                None => {
                    self.users.push(u);
                },
                Some(idx) => {
                    let nb: i64 = self.users[idx].balance + u.balance;
                    let element = &mut self.users[idx];
                    element.balance = nb;
                },
            }
            proof {
                assert(self.users@ == spec_merge_one(users_before, u));
            }
        }
        proof {
            assert(spec_merge(self.users@, incoming@) == self.users@);
        }
    }
}

} // verus!
