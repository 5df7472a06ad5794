use vstd::prelude::*;

verus! {

/// What the transfer core reads of a user: the id, and the point balance that
/// holds while the user has no ledger entry.
#[derive(Clone, Copy, Debug, PartialEq, Eq, Structural)]
pub struct UserAccount {
    pub id: u32,
    pub points: u64,
}

/// The most recently added account with id `id`, if any.
pub open spec fn user_with_id(s: Seq<UserAccount>, id: u32) -> Option<UserAccount>
    decreases s.len(),
{
    if s.len() == 0 {
        None
    } else if s.last().id == id {
        Some(s.last())
    } else {
        user_with_id(s.drop_last(), id)
    }
}

/// The seed balance of user `id`: its points, or 0 for an unknown user.
pub open spec fn seed_of(s: Seq<UserAccount>, id: u32) -> u64 {
    match user_with_id(s, id) {
        Some(u) => u.points,
        None => 0,
    }
}

/// The users known to the transfer core, each id at most once.
pub struct UserDirectory {
    users: Vec<UserAccount>,
}

impl View for UserDirectory {
    type V = Seq<UserAccount>;

    closed spec fn view(&self) -> Seq<UserAccount> {
        self.users@
    }
}

impl UserDirectory {
    /// A directory with no user.
    pub fn new() -> (r: UserDirectory)
        ensures
            r@ == Seq::<UserAccount>::empty(),
    {
        UserDirectory { users: Vec::new() }
    }

    /// Looks a user up by id.
    pub fn get_user_by_id(&self, id: u32) -> (r: Option<UserAccount>)
        ensures
            r == user_with_id(self@, id),
    {
        let mut i = self.users.len();
        assert(self@.subrange(0, i as int) =~= self@);
        while i > 0
            invariant
                i <= self@.len(),
                user_with_id(self@.subrange(0, i as int), id) == user_with_id(self@, id),
            decreases i,
        {
            assert(self@.subrange(0, i as int).drop_last() =~= self@.subrange(0, i - 1));
            if self.users[i - 1].id == id {
                return Some(self.users[i - 1]);
            }
            i = i - 1;
        }
        None
    }

    /// Adds a user with a seed balance. Returns false, changing nothing, when
    /// the id is already taken.
    pub fn add_user(&mut self, id: u32, points: u64) -> (r: bool)
        ensures
            r == (user_with_id(old(self)@, id) is None),
            r ==> final(self)@ == old(self)@.push(UserAccount { id, points }),
            !r ==> final(self)@ == old(self)@,
    {
        if self.get_user_by_id(id).is_some() {
            return false;
        }
        self.users.push(UserAccount { id, points });
        true
    }

    /// The user's seed balance, 0 for an unknown user.
    pub fn seed_balance(&self, id: u32) -> (r: u64)
        ensures
            r == seed_of(self@, id),
    {
        match self.get_user_by_id(id) {
            Some(u) => u.points,
            None => 0,
        }
    }
}

} // verus!
