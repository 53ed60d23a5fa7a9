//! The builder that carries the group options of a command not yet spawned.

use vstd::prelude::*;

verus! {

/// Options for spawning a command as the leader of a new group.
///
/// The builder borrows the command for its whole lifetime, so the command
/// cannot be spawned in any other way while the options are being set.
pub struct CommandGroupBuilder<'a, T> {
    pub command: &'a mut T,
    pub kill_on_drop: bool,
    pub creation_flags: u32,
}

impl<'a, T> CommandGroupBuilder<'a, T> {
    /// The command as it stands now.
    pub open spec fn current(&self) -> T {
        *self.command
    }

    /// A builder around `command` with every option at its default.
    pub fn new(command: &'a mut T) -> (builder: Self)
        ensures
            builder.current() == *old(command),
            *final(command) == *final(builder.command),
            !builder.kill_on_drop,
            builder.creation_flags == 0,
    {
        Self { command, kill_on_drop: false, creation_flags: 0 }
    }

    /// The command contained in this builder.
    pub fn command(&self) -> (command: &T)
        ensures
            *command == self.current(),
    {
        &*self.command
    }

    /// The command contained in this builder, for changing it.
    pub fn command_mut(&mut self) -> (command: &mut T)
        ensures
            *command == old(self).current(),
            final(self).current() == *final(command),
            *final(final(self).command) == *final(old(self).command),
            final(self).kill_on_drop == old(self).kill_on_drop,
            final(self).creation_flags == old(self).creation_flags,
    {
        self.command
    }

    /// Sets whether the group is killed when its handle is dropped.
    pub fn kill_on_drop(&mut self, kill_on_drop: bool) -> (builder: &mut Self)
        ensures
            builder.kill_on_drop == kill_on_drop,
            builder.creation_flags == old(self).creation_flags,
            builder.command == old(self).command,
            *final(self) == *final(builder),
    {
        self.kill_on_drop = kill_on_drop;
        self
    }

    /// Sets the process creation flags.
    pub fn creation_flags(&mut self, creation_flags: u32) -> (builder: &mut Self)
        ensures
            builder.creation_flags == creation_flags,
            builder.kill_on_drop == old(self).kill_on_drop,
            builder.command == old(self).command,
            *final(self) == *final(builder),
    {
        self.creation_flags = creation_flags;
        self
    }
}

} // verus!
