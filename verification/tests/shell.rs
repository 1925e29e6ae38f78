use kernel::apic::lapic::LApic;
use kernel::interrupts::handler::keyboard_interrupt_handler;
use kernel::task::executor::Action;
use kernel::task::executor::Executor;
use kernel::task::keyboard::character;
use kernel::task::keyboard::Decoder;
use kernel::task::shell::add_char;
use kernel::task::shell::shell;
use kernel::task::shell::Bridge;
use kernel::task::shell::Delivery;
use kernel::task::shell::Shell;
use kernel::task::TaskId;
use pc_keyboard::DecodedKey;
use pc_keyboard::KeyCode;

fn text(chars: &[char]) -> String {
    chars.iter().collect()
}

fn started() -> (Bridge, Shell) {
    let mut bridge = Bridge::new();
    let (shell, prompt) = shell(&mut bridge);
    assert_eq!(text(&prompt), ">>>");
    (bridge, shell)
}

fn ready() -> LApic {
    let mut lapic = LApic::new();
    lapic.init(0x1000, 0, 0x0005_0014);
    lapic.synchronize(0);
    lapic
}

#[test]
fn shell_starts_with_a_prompt_and_an_empty_line() {
    let (bridge, shell) = started();
    assert!(bridge.is_initialized());
    assert!(shell.typed().is_empty());
}

#[test]
fn plain_characters_are_echoed_and_collected() {
    let (_, mut shell) = started();
    assert_eq!(text(&shell.feed('h')), "h");
    assert_eq!(text(&shell.feed('i')), "i");
    assert_eq!(text(shell.typed()), "hi");
}

#[test]
fn line_feed_reports_the_line_and_prompts_again() {
    let (_, mut shell) = started();
    shell.feed('h');
    shell.feed('i');
    assert_eq!(text(&shell.feed('\n')), "\ninput: hi\n>>>");
    assert!(shell.typed().is_empty());
    assert_eq!(text(&shell.feed('\n')), "\ninput: \n>>>");
}

#[test]
fn backspace_takes_the_last_character_back_silently() {
    let (_, mut shell) = started();
    shell.feed('h');
    shell.feed('o');
    assert_eq!(text(&shell.feed('\u{8}')), "");
    assert_eq!(text(shell.typed()), "h");
    shell.feed('i');
    assert_eq!(text(&shell.feed('\n')), "\ninput: hi\n>>>");
    assert_eq!(text(&shell.feed('\u{8}')), "");
    assert!(shell.typed().is_empty());
}

#[test]
fn poll_drains_the_bridge_and_registers() {
    let (mut bridge, mut shell) = started();
    for c in ['a', 'b', '\n', 'c'] {
        add_char(&mut bridge, c);
    }
    let printed = shell.poll(&mut bridge, TaskId(3));
    assert_eq!(text(&printed), "ab\ninput: ab\n>>>c");
    assert_eq!(text(shell.typed()), "c");
    assert_eq!(bridge.len(), 0);
    assert_eq!(bridge.waker(), Some(TaskId(3)));
    assert_eq!(text(&shell.poll(&mut bridge, TaskId(3))), "");
    assert_eq!(bridge.waker(), Some(TaskId(3)));
}

#[test]
fn scancodes_decode_to_characters() {
    let mut keyboard = Decoder::new();
    assert_eq!(keyboard.decode(0x23), Some(DecodedKey::Unicode('h')));
    assert_eq!(keyboard.decode(0xa3), None);
    assert_eq!(keyboard.decode(0x2a), Some(DecodedKey::RawKey(KeyCode::LShift)));
    assert_eq!(keyboard.decode(0x23), Some(DecodedKey::Unicode('H')));
    assert_eq!(keyboard.decode(0xaa), None);
    assert_eq!(keyboard.decode(0x1c), Some(DecodedKey::Unicode('\n')));
    assert_eq!(keyboard.decode(0x0e), Some(DecodedKey::Unicode('\u{8}')));
    assert_eq!(keyboard.decode(0xe0), None);
    assert_eq!(keyboard.decode(0x00), None);
}

#[test]
fn only_unicode_keys_stand_for_characters() {
    assert_eq!(character(Some(DecodedKey::Unicode('x'))), Some('x'));
    assert_eq!(character(Some(DecodedKey::RawKey(KeyCode::F1))), None);
    assert_eq!(character(None), None);
}

#[test]
fn typing_hi_and_return_emits_one_line_and_a_fresh_prompt() {
    let lapic = ready();
    let mut keyboard = Decoder::new();
    let mut bridge = Bridge::new();
    let mut executor: Executor<Shell> = Executor::new();
    let (task, prompt) = shell(&mut bridge);
    let mut screen = text(&prompt);
    let id = executor.spawn(task).ok().unwrap();

    let mut scancodes = vec![0x23u8, 0xa3, 0x17, 0x97, 0x1c, 0x9c].into_iter();
    loop {
        match executor.next() {
            Action::Resume(id, mut task) => {
                screen.push_str(&text(&task.poll(&mut bridge, id)));
                executor.suspend(task);
            }
            Action::DisableInterrupts | Action::EnableInterrupts => {}
            Action::EnableAndHalt => match scancodes.next() {
                Some(scancode) => {
                    let served =
                        keyboard_interrupt_handler(&mut keyboard, scancode, &lapic, &mut bridge);
                    assert_eq!(served.writes.len(), 1);
                    if let Some(Delivery::Queued { wake: Some(woken) }) = served.delivery {
                        executor.wake(woken);
                    }
                }
                None => break,
            },
            Action::Exit => panic!("the shell never completes"),
        }
    }
    assert_eq!(screen, ">>>hi\ninput: hi\n>>>");
    assert_eq!(screen.matches("input: hi").count(), 1);
    assert!(screen.ends_with("\n>>>"));
    assert_eq!(executor.running(), None);
    assert_eq!(bridge.waker(), Some(id));
}
