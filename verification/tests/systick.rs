use mewkernel::systick;
use mewkernel::util::Access;

#[test]
fn enable_programs_reload_then_current_then_control() {
    let steps = systick::enable();
    assert_eq!(steps[0], Access::Store { address: 0xE000_E014, value: 7999 });
    assert_eq!(steps[1], Access::Store { address: 0xE000_E018, value: 0 });
    assert_eq!(steps[2], Access::Store { address: 0xE000_E010, value: 0b111 });
}
