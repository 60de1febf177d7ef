use imxrt_usb::pll::{pll_state, pll_writes, PllRegister, PllState, PllWrite};

fn apply(mut pll: u32, writes: &[PllWrite]) -> u32 {
    for w in writes {
        pll = match w.register {
            PllRegister::SetAlias => pll | w.bits,
            PllRegister::ClearAlias => pll & !w.bits,
        };
    }
    pll
}

#[test]
fn pll_states_in_priority_order() {
    assert_eq!(pll_state(0x0001_0002), PllState::NeedsBypassReconfigure);
    assert_eq!(pll_state(0), PllState::NeedsEnable);
    assert_eq!(pll_state(0x2000), PllState::NeedsPower);
    assert_eq!(pll_state(0x3000), PllState::WaitForLock);
    assert_eq!(pll_state(0x8001_3000), PllState::NeedsUnbypass);
    assert_eq!(pll_state(0x8000_3000), PllState::NeedsEnableUsbClocks);
    assert_eq!(pll_state(0x8000_3040), PllState::Converged);
}

#[test]
fn pll_writes_per_state() {
    assert_eq!(pll_writes(PllState::WaitForLock).len(), 0);
    assert_eq!(pll_writes(PllState::Converged).len(), 0);
    assert_eq!(pll_writes(PllState::NeedsEnable), vec![PllWrite { register: PllRegister::SetAlias, bits: 0x2000 }]);
    assert_eq!(pll_writes(PllState::NeedsUnbypass), vec![PllWrite { register: PllRegister::ClearAlias, bits: 0x1_0000 }]);
    assert_eq!(pll_writes(PllState::NeedsBypassReconfigure).len(), 3);
}

#[test]
fn pll_bring_up_converges_from_528_mhz_mode() {
    let mut pll: u32 = 0x0000_1042;
    let mut seen = Vec::new();
    for _ in 0..20 {
        let state = pll_state(pll);
        seen.push(state);
        if state == PllState::Converged {
            break;
        }
        if state == PllState::WaitForLock {
            pll |= 0x8000_0000;
            continue;
        }
        pll = apply(pll, &pll_writes(state));
    }
    assert_eq!(
        seen,
        vec![
            PllState::NeedsBypassReconfigure,
            PllState::NeedsEnable,
            PllState::NeedsPower,
            PllState::WaitForLock,
            PllState::NeedsUnbypass,
            PllState::NeedsEnableUsbClocks,
            PllState::Converged,
        ]
    );
    assert_eq!(pll & 0x2, 0);
}
