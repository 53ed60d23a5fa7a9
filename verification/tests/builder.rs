use command_group::builder::CommandGroupBuilder;

#[test]
fn new_builder_has_default_options() {
    let mut command = String::from("sleep");
    let builder = CommandGroupBuilder::new(&mut command);
    assert!(!builder.kill_on_drop);
    assert_eq!(builder.creation_flags, 0);
    assert_eq!(builder.command(), "sleep");
}

#[test]
fn command_is_the_one_given() {
    let mut command = vec![1u8, 2, 3];
    let builder = CommandGroupBuilder::new(&mut command);
    assert_eq!(builder.command(), &vec![1u8, 2, 3]);
}

#[test]
fn command_mut_changes_the_borrowed_command() {
    let mut command = String::from("sleep");
    {
        let mut builder = CommandGroupBuilder::new(&mut command);
        builder.command_mut().push_str(" 5");
        assert_eq!(builder.command(), "sleep 5");
        assert!(!builder.kill_on_drop);
        assert_eq!(builder.creation_flags, 0);
    }
    assert_eq!(command, "sleep 5");
}

#[test]
fn kill_on_drop_sets_only_that_option() {
    let mut command = 7u32;
    let mut builder = CommandGroupBuilder::new(&mut command);
    builder.kill_on_drop(true);
    assert!(builder.kill_on_drop);
    assert_eq!(builder.creation_flags, 0);
    assert_eq!(*builder.command(), 7);
    builder.kill_on_drop(false);
    assert!(!builder.kill_on_drop);
}

#[test]
fn creation_flags_sets_only_that_option() {
    let mut command = 7u32;
    let mut builder = CommandGroupBuilder::new(&mut command);
    builder.creation_flags(0x0000_0200);
    assert_eq!(builder.creation_flags, 0x0000_0200);
    assert!(!builder.kill_on_drop);
    assert_eq!(*builder.command(), 7);
}

#[test]
fn setters_chain() {
    let mut command = 7u32;
    let mut builder = CommandGroupBuilder::new(&mut command);
    builder.kill_on_drop(true).creation_flags(8).kill_on_drop(false).creation_flags(u32::MAX);
    assert!(!builder.kill_on_drop);
    assert_eq!(builder.creation_flags, u32::MAX);
    *builder.command_mut() = 9;
    assert_eq!(*builder.command(), 9);
    assert_eq!(command, 9);
}
