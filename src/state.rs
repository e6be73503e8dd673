use vstd::prelude::*;

use std::collections::HashMap;

verus! {

broadcast use vstd::std_specs::hash::group_hash_axioms;

/// Ephemeral flags of one user.
#[derive(Clone, Copy, Debug, PartialEq, Eq, Structural)]
pub struct UserState {
    /// The user is running the configuration wizard.
    pub in_setup: bool,
}

impl Default for UserState {
    fn default() -> (r: UserState)
        ensures
            !r.in_setup,
    {
        UserState { in_setup: false }
    }
}

impl UserState {
    /// A user in the setup wizard cannot make reports by reaction, so that a
    /// confirmation reaction is not read as a flag.
    pub fn can_make_report(&self) -> (r: bool)
        ensures
            r == !self.in_setup,
    {
        !self.in_setup
    }
}

/// Whether the flags `users` hold say that `user_id` is in the setup wizard.
pub open spec fn flag_set(users: Map<u64, UserState>, user_id: u64) -> bool {
    users.dom().contains(user_id) && users[user_id].in_setup
}

/// Per-user ephemeral flags, shared by all event handlers, and the messages
/// pinned by the bot whose pin notice is still to be removed.
pub struct State {
    users: HashMap<u64, UserState>,
    pinned_msgs: Vec<(u64, u64)>,
}

impl State {
    /// The flags of each user that has any.
    pub closed spec fn users(&self) -> Map<u64, UserState> {
        self.users@
    }

    /// Whether `user_id` is in the setup wizard.
    pub open spec fn in_setup(&self, user_id: u64) -> bool {
        flag_set(self.users(), user_id)
    }

    /// No user has any flag.
    pub fn new() -> (r: State)
        ensures
            r.users() == Map::<u64, UserState>::empty(),
            r.pinned() == Seq::<(u64, u64)>::empty(),
    {
        State { users: HashMap::new(), pinned_msgs: Vec::new() }
    }

    /// The (channel id, message id) of each message the bot pinned and whose
    /// pin notice has not been seen yet, oldest first.
    pub closed spec fn pinned(&self) -> Seq<(u64, u64)> {
        self.pinned_msgs@
    }

    /// Records that the bot pinned message `message_id` in `channel_id`.
    pub fn pin_msg(&mut self, channel_id: u64, message_id: u64)
        ensures
            final(self).pinned() == old(self).pinned().push((channel_id, message_id)),
            final(self).users() == old(self).users(),
    {
        self.pinned_msgs.push((channel_id, message_id));
    }

    /// Takes the record of a pin of message `message_id` in `channel_id`,
    /// if the bot made one: its pin notice is then to be removed.
    pub fn take_pinned(&mut self, channel_id: u64, message_id: u64) -> (r: bool)
        ensures
            r == old(self).pinned().contains((channel_id, message_id)),
            r ==> exists|i: int|
                0 <= i < old(self).pinned().len() && old(self).pinned()[i] == (channel_id, message_id)
                    && final(self).pinned() == old(self).pinned().remove(i),
            !r ==> final(self).pinned() == old(self).pinned(),
            final(self).users() == old(self).users(),
    {
        let mut i: usize = 0;
        while i < self.pinned_msgs.len()
            invariant
                i <= self.pinned_msgs@.len(),
                self.pinned_msgs@ == old(self).pinned_msgs@,
                self.users@ == old(self).users@,
                forall|k: int| 0 <= k < i ==> self.pinned_msgs@[k] != (channel_id, message_id),
            decreases self.pinned_msgs@.len() - i,
        {
            let (c, m) = self.pinned_msgs[i];
            if c == channel_id && m == message_id {
                self.pinned_msgs.remove(i);
                assert(old(self).pinned()[i as int] == (channel_id, message_id));
                assert(self.pinned() == old(self).pinned().remove(i as int));
                return true;
            }
            i = i + 1;
        }
        false
    }

    /// The flags of `id`; a user without any has the default ones.
    pub fn get_user(&self, id: u64) -> (r: UserState)
        ensures
            r.in_setup == self.in_setup(id),
    {
        match self.users.get(&id) {
            Some(u) => *u,
            None => UserState::default(),
        }
    }

    /// Sets whether `id` is in the setup wizard.
    pub fn set_in_setup(&mut self, id: u64, in_setup: bool)
        ensures
            final(self).users() == old(self).users().insert(id, UserState { in_setup }),
    {
        self.users.insert(id, UserState { in_setup });
    }
}

/// The setup guard of one user: taking it marks the user as in the setup
/// wizard, and releasing it, which the wizard does on every way out, clears
/// the mark.
pub struct InSetup {
    user_id: u64,
}

impl InSetup {
    /// The user that the guard is for.
    pub closed spec fn user(&self) -> u64 {
        self.user_id
    }

    /// Takes the guard of `user_id`.
    pub fn new(state: &mut State, user_id: u64) -> (r: InSetup)
        ensures
            r.user() == user_id,
            final(state).users() == old(state).users().insert(user_id, UserState { in_setup: true }),
            final(state).in_setup(user_id),
    {
        state.set_in_setup(user_id, true);
        InSetup { user_id }
    }

    /// The user that the guard is for.
    pub fn user_id(&self) -> (r: u64)
        ensures
            r == self.user(),
    {
        self.user_id
    }

    /// Releases the guard.
    pub fn release(self, state: &mut State)
        ensures
            final(state).users() == old(state).users().insert(
                self.user(),
                UserState { in_setup: false },
            ),
            !final(state).in_setup(self.user()),
    {
        state.set_in_setup(self.user_id, false);
    }
}

} // verus!
