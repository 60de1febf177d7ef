//! Bring-up of the USB PHY PLL, as a state machine over the PLL register
use vstd::prelude::*;

verus! {

/// PLL_USB1 DIV_SELECT: the PLL runs at 528 MHz instead of 480 MHz.
pub const PLL_DIV_SELECT: u32 = 0x2;
/// PLL_USB1 EN_USB_CLKS: the PLL's outputs feed the USB PHY.
pub const PLL_EN_USB_CLKS: u32 = 0x40;
/// PLL_USB1 POWER: the PLL is powered.
pub const PLL_POWER: u32 = 0x1000;
/// PLL_USB1 ENABLE: the PLL output is enabled.
pub const PLL_ENABLE: u32 = 0x2000;
/// PLL_USB1 BYPASS_CLK_SRC: the bypass clock source field; zero selects the 24 MHz reference.
pub const PLL_BYPASS_CLK_SRC: u32 = 0xC000;
/// PLL_USB1 BYPASS: the PLL output is bypassed.
pub const PLL_BYPASS: u32 = 0x10000;
/// PLL_USB1 LOCK: set by the hardware once the PLL has locked.
pub const PLL_LOCK: u32 = 0x8000_0000;

/// Where the bring-up stands, from the first unmet precondition to done.
#[derive(Clone, Copy, Debug, PartialEq, Eq, Structural)]
pub enum PllState {
    NeedsBypassReconfigure,
    NeedsEnable,
    NeedsPower,
    WaitForLock,
    NeedsUnbypass,
    NeedsEnableUsbClocks,
    Converged,
}

/// The register a write goes to: the set alias ORs the bits in, the clear alias clears them.
#[derive(Clone, Copy, Debug, PartialEq, Eq, Structural)]
pub enum PllRegister {
    SetAlias,
    ClearAlias,
}

/// One write to the PLL register's set or clear alias.
#[derive(Clone, Copy, Debug, PartialEq, Eq, Structural)]
pub struct PllWrite {
    pub register: PllRegister,
    pub bits: u32,
}

/// How far a register value is along the bring-up: 0 to 6.
pub open spec fn pll_rank(pll: u32) -> u32 {
    if pll & 0x2u32 != 0 {
        0
    } else if pll & 0x2000u32 == 0 {
        1
    } else if pll & 0x1000u32 == 0 {
        2
    } else if pll & 0x8000_0000u32 == 0 {
        3
    } else if pll & 0x10000u32 != 0 {
        4
    } else if pll & 0x40u32 == 0 {
        5
    } else {
        6
    }
}

/// The state of a rank.
pub open spec fn state_of_rank(rank: u32) -> PllState {
    if rank == 0 {
        PllState::NeedsBypassReconfigure
    } else if rank == 1 {
        PllState::NeedsEnable
    } else if rank == 2 {
        PllState::NeedsPower
    } else if rank == 3 {
        PllState::WaitForLock
    } else if rank == 4 {
        PllState::NeedsUnbypass
    } else if rank == 5 {
        PllState::NeedsEnableUsbClocks
    } else {
        PllState::Converged
    }
}

/// The state of the bring-up for a value of the PLL register.
pub open spec fn pll_state_of(pll: u32) -> PllState {
    state_of_rank(pll_rank(pll))
}

/// The writes that correct the unmet precondition of a state, in order.
pub open spec fn writes_of(state: PllState) -> Seq<PllWrite> {
    match state {
        PllState::NeedsBypassReconfigure => seq![
            PllWrite { register: PllRegister::ClearAlias, bits: PLL_BYPASS_CLK_SRC },
            PllWrite { register: PllRegister::SetAlias, bits: PLL_BYPASS },
            PllWrite { register: PllRegister::ClearAlias, bits: PLL_POWER | PLL_DIV_SELECT | PLL_ENABLE | PLL_EN_USB_CLKS },
        ],
        PllState::NeedsEnable => seq![PllWrite { register: PllRegister::SetAlias, bits: PLL_ENABLE }],
        PllState::NeedsPower => seq![PllWrite { register: PllRegister::SetAlias, bits: PLL_POWER }],
        PllState::WaitForLock => seq![],
        PllState::NeedsUnbypass => seq![PllWrite { register: PllRegister::ClearAlias, bits: PLL_BYPASS }],
        PllState::NeedsEnableUsbClocks => seq![PllWrite { register: PllRegister::SetAlias, bits: PLL_EN_USB_CLKS }],
        PllState::Converged => seq![],
    }
}

/// The register value after one write.
pub open spec fn apply_write(pll: u32, w: PllWrite) -> u32 {
    match w.register {
        PllRegister::SetAlias => pll | w.bits,
        PllRegister::ClearAlias => pll & !w.bits,
    }
}

/// The register value after a list of writes, first to last.
pub open spec fn apply_writes(pll: u32, ws: Seq<PllWrite>) -> u32
    decreases ws.len(),
{
    if ws.len() == 0 {
        pll
    } else {
        apply_write(apply_writes(pll, ws.drop_last()), ws.last())
    }
}

/// Classifies a value of the PLL register: the first unmet precondition, or `Converged`.
pub fn pll_state(pll: u32) -> (r: PllState)
    ensures
        r == pll_state_of(pll),
{
    if pll & PLL_DIV_SELECT != 0 {
        PllState::NeedsBypassReconfigure
    } else if pll & PLL_ENABLE == 0 {
        PllState::NeedsEnable
    } else if pll & PLL_POWER == 0 {
        PllState::NeedsPower
    } else if pll & PLL_LOCK == 0 {
        PllState::WaitForLock
    } else if pll & PLL_BYPASS != 0 {
        PllState::NeedsUnbypass
    } else if pll & PLL_EN_USB_CLKS == 0 {
        PllState::NeedsEnableUsbClocks
    } else {
        PllState::Converged
    }
}

/// The writes that correct the unmet precondition of `state`, in order. Waiting for the
/// lock and being done take none.
pub fn pll_writes(state: PllState) -> (r: Vec<PllWrite>)
    ensures
        r@ == writes_of(state),
{
    let mut ws: Vec<PllWrite> = Vec::new();
    match state {
        PllState::NeedsBypassReconfigure => {
            ws.push(PllWrite { register: PllRegister::ClearAlias, bits: PLL_BYPASS_CLK_SRC });
            ws.push(PllWrite { register: PllRegister::SetAlias, bits: PLL_BYPASS });
            ws.push(PllWrite { register: PllRegister::ClearAlias, bits: PLL_POWER | PLL_DIV_SELECT | PLL_ENABLE | PLL_EN_USB_CLKS });
        },
        PllState::NeedsEnable => ws.push(PllWrite { register: PllRegister::SetAlias, bits: PLL_ENABLE }),
        PllState::NeedsPower => ws.push(PllWrite { register: PllRegister::SetAlias, bits: PLL_POWER }),
        PllState::WaitForLock => {},
        PllState::NeedsUnbypass => ws.push(PllWrite { register: PllRegister::ClearAlias, bits: PLL_BYPASS }),
        PllState::NeedsEnableUsbClocks => ws.push(PllWrite { register: PllRegister::SetAlias, bits: PLL_EN_USB_CLKS }),
        PllState::Converged => {},
    }
    assert(ws@ =~= writes_of(state));
    ws
}

/// The bring-up makes progress: the writes of every state but waiting and done move the
/// register to a later state, as long as the hardware leaves the lock flag alone; waiting
/// writes nothing and ends once the hardware sets the lock flag.
pub proof fn lemma_pll_progress(pll: u32)
    ensures
        pll_rank(pll) != 3 && pll_rank(pll) != 6 ==> pll_rank(apply_writes(pll, writes_of(pll_state_of(pll)))) > pll_rank(pll),
        pll_rank(pll) == 3 ==> writes_of(pll_state_of(pll)).len() == 0 && pll_rank(pll | PLL_LOCK) > 3,
        pll_rank(pll) == 6 <==> pll_state_of(pll) == PllState::Converged,
        pll_rank(pll) == 6 ==> writes_of(pll_state_of(pll)).len() == 0,
{
    reveal_with_fuel(apply_writes, 4);
    let ws = writes_of(pll_state_of(pll));
    let r = pll_rank(pll);
    assert(r <= 6);
    if r == 0 {
        let with_src = pll & !0xC000u32;
        let bypassed = with_src | 0x10000u32;
        let cleared = bypassed & !(0x1000u32 | 0x2u32 | 0x2000u32 | 0x40u32);
        assert(ws.drop_last().drop_last().drop_last() =~= Seq::<PllWrite>::empty());
        assert(ws.drop_last().drop_last() =~= seq![ws[0]]);
        assert(ws.drop_last() =~= seq![ws[0], ws[1]]);
        assert(0x1000u32 | 0x2u32 | 0x2000u32 | 0x40u32 == 0x3042u32) by (bit_vector);
        assert(apply_writes(pll, ws.drop_last().drop_last()) == with_src);
        assert(apply_writes(pll, ws.drop_last()) == bypassed);
        assert(apply_writes(pll, ws) == cleared);
        assert(pll_rank(cleared) == 1) by (bit_vector)
            requires
                cleared == ((pll & !0xC000u32) | 0x10000u32) & !(0x1000u32 | 0x2u32 | 0x2000u32 | 0x40u32),
        ;
    } else if r == 1 {
        assert(ws.drop_last() =~= Seq::<PllWrite>::empty());
        let p = pll | 0x2000u32;
        assert(pll_rank(p) > 1) by (bit_vector)
            requires
                pll & 0x2u32 == 0,
                p == pll | 0x2000u32,
        ;
    } else if r == 2 {
        assert(ws.drop_last() =~= Seq::<PllWrite>::empty());
        let p = pll | 0x1000u32;
        assert(pll_rank(p) > 2) by (bit_vector)
            requires
                pll & 0x2u32 == 0,
                pll & 0x2000u32 != 0,
                p == pll | 0x1000u32,
        ;
    } else if r == 3 {
        let p = pll | 0x8000_0000u32;
        assert(pll_rank(p) > 3) by (bit_vector)
            requires
                pll & 0x2u32 == 0,
                pll & 0x2000u32 != 0,
                pll & 0x1000u32 != 0,
                p == pll | 0x8000_0000u32,
        ;
    } else if r == 4 {
        assert(ws.drop_last() =~= Seq::<PllWrite>::empty());
        let p = pll & !0x10000u32;
        assert(pll_rank(p) > 4) by (bit_vector)
            requires
                pll & 0x2u32 == 0,
                pll & 0x2000u32 != 0,
                pll & 0x1000u32 != 0,
                pll & 0x8000_0000u32 != 0,
                p == pll & !0x10000u32,
        ;
    } else if r == 5 {
        assert(ws.drop_last() =~= Seq::<PllWrite>::empty());
        let p = pll | 0x40u32;
        assert(pll_rank(p) > 5) by (bit_vector)
            requires
                pll & 0x2u32 == 0,
                pll & 0x2000u32 != 0,
                pll & 0x1000u32 != 0,
                pll & 0x8000_0000u32 != 0,
                pll & 0x10000u32 == 0,
                p == pll | 0x40u32,
        ;
    }
}

} // verus!
