//! The whole console: the paced CPU and the bus, stepped together.
use vstd::prelude::*;
use crate::cartridge::Cartridge;
use crate::cpu::{step_post, CpuError, RTC, STEP_CYCLES};
use crate::mmunit::{is_sound, Mmunit, Sound};
use crate::registers::{Register, Term};

verus! {

/// The CPU and the bus with everything behind it.
pub struct MotherBoard<A: Sound> {
    pub mmu: Mmunit<A>,
    pub cpu: RTC,
}

/// One step of the board: `m1` is the bus once a pending speed switch has
/// been committed (when the opcode at the program counter is STOP), `mid`
/// the bus after the CPU step, which has the effect that `step_post`
/// states; on success the peripherals then advance by the step's cycles.
pub open spec fn board_step<A: Sound>(
    n: MotherBoard<A>,
    o: MotherBoard<A>,
    m1: Mmunit<A>,
    mid: Mmunit<A>,
    r: Result<(u32, bool), CpuError>,
) -> bool {
    let pc = o.cpu.cpu.reg.program_counter;
    &&& (!is_sound(pc) && o.mmu.read(pc) == 0x10) ==> m1 == o.mmu.switched()
    &&& (!is_sound(pc) && o.mmu.read(pc) != 0x10) ==> m1 == o.mmu
    &&& is_sound(pc) ==> (m1 == o.mmu || m1 == o.mmu.switched())
    &&& match r {
        Ok((c, pace)) => {
            &&& step_post(n.cpu.cpu, mid, o.cpu.cpu, m1, Ok(c))
            &&& pace == (o.cpu.step_cycles > STEP_CYCLES)
            &&& n.mmu.advanced(&mid, c)
        },
        Err(e) => step_post(n.cpu.cpu, mid, o.cpu.cpu, m1, Err(e)) && n.mmu == mid,
    }
}

impl<A: Sound> MotherBoard<A> {
    pub open spec fn wf(&self) -> bool {
        self.mmu.wf() && self.cpu.wf()
    }

    pub fn power_up(cartridge: Cartridge, apu: A) -> (r: Self)
        requires
            cartridge.wf(),
        ensures
            r.wf(),
            r.mmu.cartridge == cartridge,
            r.mmu.term == if cartridge.read(0x0143) & 0x80 == 0x80 { Term::GBC } else { Term::GB },
            r.cpu.cpu.reg == Register::power_up_spec(r.mmu.term),
            !r.cpu.cpu.halted && r.cpu.cpu.ei,
    {
        let mmu = Mmunit::power_up(cartridge, apu);
        let cpu = RTC::power_up(mmu.term);
        Self { mmu, cpu }
    }

    /// One step of the whole console: a pending speed switch is committed
    /// when the next opcode is STOP, the CPU steps, then the peripherals
    /// run for the cycles it took.
    pub fn next(&mut self) -> (r: Result<(u32, bool), CpuError>)
        requires
            old(self).wf(),
        ensures
            final(self).wf(),
            r matches Ok((c, _)) ==> c % 4 == 0 && c <= 36,
            exists|m1: Mmunit<A>, mid: Mmunit<A>| #[trigger] board_step(*final(self), *old(self), m1, mid, r),
    {
        if self.mmu.get(self.cpu.cpu.reg.program_counter) == 0x10 {
            self.mmu.switch_speed();
        }
        let ghost m1 = self.mmu;
        let stepped = self.cpu.next(&mut self.mmu);
        let ghost mid = self.mmu;
        let (cycles, pace) = match stepped {
            Ok(x) => x,
            Err(e) => {
                assert(board_step(*self, *old(self), m1, mid, Err(e)));
                return Err(e);
            },
        };
        self.mmu.next(cycles);
        assert(board_step(*self, *old(self), m1, mid, Ok((cycles, pace))));
        Ok((cycles, pace))
    }

    /// Whether a frame was finished since the last call.
    pub fn check_reset_gpu(&mut self) -> (r: bool)
        requires
            old(self).wf(),
        ensures
            final(self).wf(),
            r == old(self).mmu.gpu.v_blank,
            !final(self).mmu.gpu.v_blank,
    {
        let result = self.mmu.gpu.v_blank;
        self.mmu.gpu.v_blank = false;
        result
    }
}

} // verus!
