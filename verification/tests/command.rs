use unshare::child::ChildDirective;
use unshare::child::ChildState;
use unshare::child::child_directive;
use unshare::command::Command;
use unshare::command::IdMapEntry;
use unshare::parent::ParentDirective;
use unshare::parent::ParentEvent;
use unshare::parent::ParentState;
use unshare::parent::parent_advance;
use unshare::parent::parent_directive;
use unshare::report::SpawnError;

type UnfreezeHook = fn(u32) -> Result<(), i32>;
type ChildHook = fn() -> Result<(), i32>;

fn unfreeze_ok(_child: u32) -> Result<(), i32> {
    Ok(())
}

fn unfreeze_denied(_child: u32) -> Result<(), i32> {
    Err(13)
}

fn hook_one() -> Result<(), i32> {
    Err(1)
}

fn hook_two() -> Result<(), i32> {
    Err(2)
}

fn bare_command() -> Command<UnfreezeHook, ChildHook, ChildHook> {
    Command::new(String::from("/bin/true"))
}

#[test]
fn new_command_is_empty() {
    let mut cmd = bare_command();
    assert_eq!(cmd.program, "/bin/true");
    assert!(cmd.args.is_empty());
    assert!(cmd.env.is_empty());
    assert!(cmd.workdir.is_none());
    assert!(cmd.chroot_target.is_none());
    assert!(cmd.uid_maps.is_empty());
    assert!(cmd.gid_maps.is_empty());
    assert!(cmd.take_before_unfreeze().is_none());
    assert!(cmd.take_before_chroot().is_none());
    assert!(cmd.take_before_exec().is_none());
}

#[test]
fn builders_fill_the_fields() {
    let mut cmd = bare_command();
    cmd.arg(String::from("-l"));
    cmd.arg(String::from("/"));
    cmd.env(String::from("PATH"), String::from("/bin"));
    cmd.workdir(String::from("/tmp"));
    cmd.chroot_dir(String::from("/var/empty"));
    cmd.uid_map(IdMapEntry { inside: 0, outside: 1000, count: 1 });
    cmd.gid_map(IdMapEntry { inside: 0, outside: 1000, count: 1 });
    assert_eq!(cmd.args, vec![String::from("-l"), String::from("/")]);
    assert_eq!(cmd.env, vec![(String::from("PATH"), String::from("/bin"))]);
    assert_eq!(cmd.workdir, Some(String::from("/tmp")));
    assert_eq!(cmd.chroot_target, Some(String::from("/var/empty")));
    assert_eq!(cmd.uid_maps, vec![IdMapEntry { inside: 0, outside: 1000, count: 1 }]);
}

#[test]
fn last_registration_wins_in_each_slot() {
    let mut cmd = bare_command();
    cmd.before_exec(hook_one as ChildHook);
    cmd.before_exec(hook_two as ChildHook);
    cmd.before_chroot(hook_two as ChildHook);
    cmd.before_chroot(hook_one as ChildHook);
    cmd.before_unfreeze(unfreeze_denied as UnfreezeHook);
    cmd.before_unfreeze(unfreeze_ok as UnfreezeHook);

    let exec_hook = cmd.take_before_exec().expect("slot was registered");
    assert_eq!(exec_hook(), Err(2));
    let chroot_hook = cmd.take_before_chroot().expect("slot was registered");
    assert_eq!(chroot_hook(), Err(1));
    let unfreeze_hook = cmd.take_before_unfreeze().expect("slot was registered");
    assert_eq!(unfreeze_hook(4242), Ok(()));

    // Taking a slot empties it: the spawn moves each callback out once.
    assert!(cmd.take_before_exec().is_none());
}

#[test]
fn configs_mirror_the_slots() {
    let mut cmd = bare_command();
    assert!(!cmd.parent_config().run_before_unfreeze);
    let ccfg = cmd.child_config();
    assert!(!ccfg.run_before_chroot);
    assert!(!ccfg.do_chroot);
    assert!(!ccfg.run_before_exec);

    cmd.before_unfreeze(unfreeze_ok as UnfreezeHook);
    cmd.before_chroot(hook_one as ChildHook);
    cmd.before_exec(hook_two as ChildHook);
    cmd.chroot_dir(String::from("/var/empty"));
    assert!(cmd.parent_config().run_before_unfreeze);
    let ccfg = cmd.child_config();
    assert!(ccfg.run_before_chroot);
    assert!(ccfg.do_chroot);
    assert!(ccfg.run_before_exec);
}

#[test]
fn failing_unfreeze_hook_leaves_child_frozen() {
    // Both machines together: the parent's `before_unfreeze` callback
    // fails, so the parent never issues the release — and a child that is
    // never released has nothing to do but wait.
    let mut cmd = bare_command();
    cmd.before_unfreeze(unfreeze_denied as UnfreezeHook);
    cmd.before_chroot(hook_one as ChildHook);
    let pcfg = cmd.parent_config();
    let ccfg = cmd.child_config();

    let mut pstate = ParentState::Duplicated;
    let mut released = false;
    pstate = parent_advance(&pstate, &ParentEvent::MapsOk);
    assert_eq!(parent_directive(&pstate, &pcfg), Some(ParentDirective::RunBeforeUnfreeze));
    let hook = cmd.take_before_unfreeze().expect("slot was registered");
    let outcome = hook(4242);
    assert_eq!(outcome, Err(13));
    pstate = parent_advance(&pstate, &ParentEvent::HookFailed(13));
    if parent_directive(&pstate, &pcfg) == Some(ParentDirective::ReleaseBarrier) {
        released = true;
    }
    pstate = parent_advance(&pstate, &ParentEvent::ChildTornDown);
    assert_eq!(pstate, ParentState::Settled(Err(SpawnError::UnfreezeCallback { code: 13 })));
    assert!(!released);

    // No release: the child saw no event and is still frozen.
    let cstate = ChildState::Frozen;
    assert_eq!(child_directive(&cstate, &ccfg), Some(ChildDirective::AwaitBarrier));
}
