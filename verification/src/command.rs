//! The plain data holder that configures a spawn: the program, its argument
//! and environment vectors, the working directory, the chroot target, the
//! uid/gid mapping tables, and exactly one optional callback per slot.
//!
//! The callback slots are type parameters: the library stores and hands the
//! callbacks out but never invokes them itself — the front end driving the
//! two machines does, in the process the slot belongs to. Each registration
//! **replaces** whatever the slot held, so at spawn time at most one
//! callback per slot can run.

use vstd::prelude::*;

use crate::child::ChildConfig;
use crate::parent::ParentConfig;

verus! {

/// One line of a uid or gid mapping table: `count` ids starting at `inside`
/// in the child's namespace map to ids starting at `outside` in the
/// parent's.
#[derive(Clone, Copy, Debug, PartialEq, Eq, Structural)]
pub struct IdMapEntry {
    pub inside: u32,
    pub outside: u32,
    pub count: u32,
}

/// The configuration of one spawn.
///
/// `U` is the `before_unfreeze` callback type (parent-side, handed the
/// child's identifier), `C` the `before_chroot` and `E` the `before_exec`
/// callback type (both child-side, taking nothing). The child-side
/// callbacks run after the process was duplicated and before its image is
/// replaced, so they must not allocate or free memory and must not take
/// locks — only bare system calls are safe there. That restriction cannot
/// be enforced by the types; it is a documented contract on the slots.
pub struct Command<U, C, E> {
    pub program: String,
    pub args: Vec<String>,
    pub env: Vec<(String, String)>,
    pub workdir: Option<String>,
    pub chroot_target: Option<String>,
    pub uid_maps: Vec<IdMapEntry>,
    pub gid_maps: Vec<IdMapEntry>,
    pub before_unfreeze: Option<U>,
    pub before_chroot: Option<C>,
    pub before_exec: Option<E>,
}

impl<U, C, E> Command<U, C, E> {
    /// A command that runs `program` with no arguments, an empty
    /// environment, no mappings, no chroot target and every callback slot
    /// empty.
    pub fn new(program: String) -> (cmd: Self)
        ensures
            cmd.program == program,
            cmd.args@ == Seq::<String>::empty(),
            cmd.env@ == Seq::<(String, String)>::empty(),
            cmd.workdir is None,
            cmd.chroot_target is None,
            cmd.uid_maps@ == Seq::<IdMapEntry>::empty(),
            cmd.gid_maps@ == Seq::<IdMapEntry>::empty(),
            cmd.before_unfreeze is None,
            cmd.before_chroot is None,
            cmd.before_exec is None,
    {
        Command {
            program,
            args: Vec::new(),
            env: Vec::new(),
            workdir: None,
            chroot_target: None,
            uid_maps: Vec::new(),
            gid_maps: Vec::new(),
            before_unfreeze: None,
            before_chroot: None,
            before_exec: None,
        }
    }

    /// Append one argument to the argument vector.
    pub fn arg(&mut self, a: String)
        ensures
            final(self).args@ == old(self).args@.push(a),
            *final(self) == (Command { args: final(self).args, ..*old(self) }),
    {
        self.args.push(a);
    }

    /// Append one environment entry.
    pub fn env(&mut self, key: String, value: String)
        ensures
            final(self).env@ == old(self).env@.push((key, value)),
            *final(self) == (Command { env: final(self).env, ..*old(self) }),
    {
        self.env.push((key, value));
    }

    /// Set the working directory the child changes into.
    pub fn workdir(&mut self, dir: String)
        ensures
            final(self).workdir == Some(dir),
            *final(self) == (Command { workdir: Some(dir), ..*old(self) }),
    {
        self.workdir = Some(dir);
    }

    /// Set the chroot target; with none configured the jail step is skipped
    /// entirely.
    pub fn chroot_dir(&mut self, dir: String)
        ensures
            final(self).chroot_target == Some(dir),
            *final(self) == (Command { chroot_target: Some(dir), ..*old(self) }),
    {
        self.chroot_target = Some(dir);
    }

    /// Append one line to the uid mapping table.
    pub fn uid_map(&mut self, entry: IdMapEntry)
        ensures
            final(self).uid_maps@ == old(self).uid_maps@.push(entry),
            *final(self) == (Command { uid_maps: final(self).uid_maps, ..*old(self) }),
    {
        self.uid_maps.push(entry);
    }

    /// Append one line to the gid mapping table.
    pub fn gid_map(&mut self, entry: IdMapEntry)
        ensures
            final(self).gid_maps@ == old(self).gid_maps@.push(entry),
            *final(self) == (Command { gid_maps: final(self).gid_maps, ..*old(self) }),
    {
        self.gid_maps.push(entry);
    }

    /// Set a callback to run in the **parent**, after the uid/gid mappings
    /// are written and strictly before the barrier is released. It is
    /// handed the child's identifier; if it fails, the child is torn down
    /// without ever being unfrozen.
    ///
    /// Each invocation **replaces** the slot, so only one such callback can
    /// run at spawn time.
    pub fn before_unfreeze(&mut self, f: U)
        ensures
            final(self).before_unfreeze == Some(f),
            *final(self) == (Command { before_unfreeze: Some(f), ..*old(self) }),
    {
        self.before_unfreeze = Some(f);
    }

    /// Set a callback to run in the **child**, after the barrier is
    /// released and strictly before the chroot. After the chroot the child
    /// sees nothing of the filesystem outside the jail; this is its last
    /// chance to touch it. The callback runs between fork and exec: it must
    /// not allocate or free memory and must not take locks.
    ///
    /// Each invocation **replaces** the slot, so only one such callback can
    /// run at spawn time.
    pub fn before_chroot(&mut self, f: C)
        ensures
            final(self).before_chroot == Some(f),
            *final(self) == (Command { before_chroot: Some(f), ..*old(self) }),
    {
        self.before_chroot = Some(f);
    }

    /// Set a callback to run in the **child**, right before the process
    /// image is replaced, when every other modification of the environment
    /// has been applied. It runs between fork and exec: it must not
    /// allocate or free memory and must not take locks — only bare system
    /// calls. A failure is reported back and surfaces as the spawn call's
    /// error.
    ///
    /// Each invocation **replaces** the slot, so only one such callback can
    /// run at spawn time.
    pub fn before_exec(&mut self, f: E)
        ensures
            final(self).before_exec == Some(f),
            *final(self) == (Command { before_exec: Some(f), ..*old(self) }),
    {
        self.before_exec = Some(f);
    }

    /// What the child-side machine has to do for this command.
    pub fn child_config(&self) -> (cfg: ChildConfig)
        ensures
            cfg.run_before_chroot == self.before_chroot is Some,
            cfg.do_chroot == self.chroot_target is Some,
            cfg.run_before_exec == self.before_exec is Some,
    {
        ChildConfig {
            run_before_chroot: self.before_chroot.is_some(),
            do_chroot: self.chroot_target.is_some(),
            run_before_exec: self.before_exec.is_some(),
        }
    }

    /// What the parent-side machine has to do for this command.
    pub fn parent_config(&self) -> (cfg: ParentConfig)
        ensures
            cfg.run_before_unfreeze == self.before_unfreeze is Some,
    {
        ParentConfig { run_before_unfreeze: self.before_unfreeze.is_some() }
    }

    /// Move the `before_unfreeze` callback out, into the parent-side
    /// context that will invoke it.
    pub fn take_before_unfreeze(&mut self) -> (f: Option<U>)
        ensures
            f == old(self).before_unfreeze,
            final(self).before_unfreeze is None,
            *final(self) == (Command { before_unfreeze: None, ..*old(self) }),
    {
        self.before_unfreeze.take()
    }

    /// Move the `before_chroot` callback out, into the child-side context
    /// that will invoke it.
    pub fn take_before_chroot(&mut self) -> (f: Option<C>)
        ensures
            f == old(self).before_chroot,
            final(self).before_chroot is None,
            *final(self) == (Command { before_chroot: None, ..*old(self) }),
    {
        self.before_chroot.take()
    }

    /// Move the `before_exec` callback out, into the child-side context
    /// that will invoke it.
    pub fn take_before_exec(&mut self) -> (f: Option<E>)
        ensures
            f == old(self).before_exec,
            final(self).before_exec is None,
            *final(self) == (Command { before_exec: None, ..*old(self) }),
    {
        self.before_exec.take()
    }
}

/// What one callback slot holds after a sequence of registrations, each of
/// which replaces the slot's content.
pub open spec fn spec_slot_after<T>(init: Option<T>, regs: Seq<T>) -> Option<T>
    decreases regs.len(),
{
    if regs.len() == 0 {
        init
    } else {
        spec_slot_after(Some(regs[0]), regs.drop_first())
    }
}

/// The replacement law: whatever a slot held before, after any non-empty
/// sequence of registrations it holds exactly the last one — so at spawn
/// time only the last-registered callback can be invoked.
pub proof fn lemma_last_registration_wins<T>(init: Option<T>, regs: Seq<T>)
    requires
        regs.len() > 0,
    ensures
        spec_slot_after(init, regs) == Some(regs.last()),
    decreases regs.len(),
{
    if regs.len() > 1 {
        lemma_last_registration_wins(Some(regs[0]), regs.drop_first());
        assert(regs.drop_first().last() == regs.last());
    } else {
        assert(regs.drop_first().len() == 0);
        assert(spec_slot_after(Some(regs[0]), regs.drop_first()) == Some(regs[0]));
    }
}

} // verus!
