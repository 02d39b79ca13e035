//! Orchestrator: runs one CPU instruction, advances the PPU three dots
//! per CPU cycle, latches any NMI the PPU raised for delivery before the
//! next instruction, and flags finished frames for the host to present.

use crate::cpu::bus::CpuBus;
use crate::cpu::spec_step;
use crate::cpu::step_entry;
use crate::cpu::Cpu;
use crate::cpu::CPUInterrupts;
use crate::cpu::EmulationStatus;
use crate::cpu::StepOut;
use crate::cpu::bus::bus_read_val;
use crate::controller::Controller;
use crate::cpu::memory::Ram;
use crate::cpu::memory::RAM_SIZE;
use crate::cpu::register::flags_byte;
use crate::ppu::dot_index;
use crate::ppu::dot_of;
use crate::ppu::line_of;
use crate::ppu::spec_nmi_in_ticks;
use crate::ppu::spec_run_ppu_n;
use crate::ppu::Ppu;
use crate::ppu::PpuStatus;
use crate::ppu::register::PpuRegister;
use crate::ppu::DOTS_PER_FRAME;
use crate::renderer::Frame;
use crate::renderer::FRAME_BYTES;
use crate::rom::Cartbridge;
use crate::Cycle;
use vstd::prelude::*;

verus! {

pub struct Context {
    pub cpu: Cpu,
    pub bus: CpuBus,
    pub frame: Frame,
    /// Set when the PPU finished a frame; the host presents and clears it.
    pub frame_ready: bool,
    pub cpu_cycle: Cycle,
    pub ppu_cycle: Cycle,
}

/// What one orchestrator step does, with `rv` the random byte this
/// instruction fed to $00FE: the CPU ran one `spec_step`; the PPU then
/// took exactly `3 * C` dots from its old frame position, its registers
/// and pipeline window evolving dot by dot; `frame_ready` rises exactly
/// when those dots crossed the frame boundary; and an NMI raised at any
/// of the dots, or latched by a $2000 write during the instruction,
/// sits in the CPU for service before its next instruction, the latch
/// cleared.
pub open spec fn spec_context_step(
    pre: Context,
    post: Context,
    r: EmulationStatus,
    rv: u8,
) -> bool {
    let so = spec_step(step_entry(pre.cpu), pre.bus@, rv);
    let pos0 = dot_index(pre.bus.ppu.line, pre.bus.ppu.dot);
    let bg0 = pre.bus.ppu.background@;
    let n = (3 * so.cycles) as nat;
    &&& r == so.status
    &&& post.cpu.register == so.cpu.register
    &&& post.cpu.cycles == so.cpu.cycles
    &&& post.cpu.extra_cycle == so.cpu.extra_cycle
    &&& post.cpu.page_crossed == so.cpu.page_crossed
    &&& post.cpu.interrupt == (if spec_nmi_in_ticks(so.bus.reg, bg0, so.bus.mem, pos0, n)
        || so.bus.nmi_latch {
        CPUInterrupts::INTERRUPTNMI
    } else {
        CPUInterrupts::INTERRUPTNONE
    })
    &&& post.bus.ram@ == so.bus.ram
    &&& post.bus.rom.program@ == so.bus.prg
    &&& post.bus.controller == so.bus.ctl
    &&& post.bus.dma_pending == so.bus.dma_pending
    &&& post.bus.ppu.mem@ == so.bus.mem
    &&& post.bus.ppu.updated == so.bus.updated
    &&& !post.bus.ppu.nmi_latch
    &&& post.bus.ppu.register == spec_run_ppu_n(so.bus.reg, bg0, so.bus.mem, pos0, n).0
    &&& post.bus.ppu.background@ == spec_run_ppu_n(so.bus.reg, bg0, so.bus.mem, pos0, n).1
    &&& dot_index(post.bus.ppu.line, post.bus.ppu.dot) == (pos0 + 3 * so.cycles) % (
    DOTS_PER_FRAME as int)
    &&& post.frame_ready == (pre.frame_ready || pos0 + 3 * so.cycles >= DOTS_PER_FRAME)
    &&& post.bus.ppu.tileset@ == pre.bus.ppu.tileset@
    &&& post.bus.rom.character@ == pre.bus.rom.character@
    &&& post.bus.rom.mirroring == pre.bus.rom.mirroring
    &&& post.bus.rom.size == pre.bus.rom.size
    &&& post.bus.rom.offset == pre.bus.rom.offset
    &&& post.cpu_cycle == pre.cpu_cycle + so.cycles
    &&& post.ppu_cycle == pre.ppu_cycle + 3 * so.cycles
}

/// Stepping a nonnegative value leaves its remainder in step with it.
proof fn lemma_mod_step(a: int, n: int)
    requires
        0 <= a,
        0 < n,
    ensures
        ((a % n) + 1) % n == (a + 1) % n,
{
    vstd::arithmetic::div_mod::lemma_fundamental_div_mod(a, n);
    vstd::arithmetic::div_mod::lemma_mod_multiples_vanish(a / n, a % n + 1, n);
}

/// A value already under the divisor is its own remainder.
proof fn lemma_mod_identity(a: int, n: int)
    requires
        0 <= a < n,
    ensures
        a % n == a,
{
    vstd::arithmetic::div_mod::lemma_fundamental_div_mod_converse(a, n, 0, a);
}

impl Context {
    pub open spec fn wf(&self) -> bool {
        &&& self.cpu.wf()
        &&& self.bus.wf()
        &&& self.frame.wf()
        &&& self.cpu.cycles + 0x22000 <= u64::MAX
        &&& self.ppu_cycle + 0x40000 <= u64::MAX
        &&& self.cpu_cycle + 0x22000 <= u64::MAX
    }

    /// Builds a machine around a loaded cartridge and decodes its CHR.
    pub fn new(rom: Cartbridge) -> (r: Context)
        requires
            rom.wf(),
        ensures
            r.wf(),
            !r.frame_ready,
            r.cpu_cycle == 0,
            r.ppu_cycle == 0,
            r.bus.ppu.register == PpuRegister::spec_power_on(),
            r.bus.ppu.line == 0 && r.bus.ppu.dot == 0,
            r.bus.ram@ == Seq::<u8>::new(RAM_SIZE as nat, |i: int| 0u8),
            r.bus.rom == rom,
            forall|i: int| 0 <= i < 0x2000 ==> r.bus.ppu.mem@.chr[i] == rom.character@[i],
            r.bus.ppu.mem@.mirroring == rom.mirroring,
            r.bus.ppu.tileset@.len() == 256,
            r.cpu.register.r_pc == 0x8000,
    {
        let cpu = Cpu::new();
        let cpu_ram = Ram::new();
        let mut ppu = Ppu::new();
        ppu.init(&rom);
        let controller = Controller::new();
        let bus = CpuBus::new(cpu_ram, rom, ppu, controller);
        Context {
            cpu,
            bus,
            frame: Frame::new(),
            frame_ready: false,
            cpu_cycle: 0,
            ppu_cycle: 0,
        }
    }

    /// Power-on: the CPU takes its reset vector ($FFFC/$FFFD), SP lands
    /// at $FD and the status byte at $24; seven cycles pass and nothing
    /// else moves.
    pub fn init(&mut self)
        requires
            old(self).wf(),
        ensures
            final(self).cpu.wf(),
            final(self).bus.wf(),
            final(self).frame.wf(),
            final(self).cpu.register.r_sp == 0xFD,
            flags_byte(final(self).cpu.register) == 0x24,
            final(self).cpu.register.r_pc == ((bus_read_val(old(self).bus@, 0xFFFD) as u16) << 8)
                | (bus_read_val(old(self).bus@, 0xFFFC) as u16),
            final(self).cpu.register.r_a == old(self).cpu.register.r_a,
            final(self).cpu.register.r_x == old(self).cpu.register.r_x,
            final(self).cpu.register.r_y == old(self).cpu.register.r_y,
            final(self).cpu.interrupt == old(self).cpu.interrupt,
            final(self).bus@ == old(self).bus@,
            final(self).bus.ppu.line == old(self).bus.ppu.line,
            final(self).bus.ppu.dot == old(self).bus.ppu.dot,
            final(self).frame@ == old(self).frame@,
            final(self).frame_ready == old(self).frame_ready,
            final(self).cpu_cycle == old(self).cpu_cycle + 7,
            final(self).ppu_cycle == old(self).ppu_cycle,
    {
        let c = self.cpu.reset(&mut self.bus);
        self.cpu_cycle = self.cpu_cycle + c;
    }

    /// One step of the top-level loop: one CPU instruction of `C`
    /// cycles, then `3 * C` PPU dots. An NMI the PPU raises during
    /// those dots, or a $2000 write latched earlier, is delivered to
    /// the CPU before its next instruction; a finished frame raises
    /// `frame_ready`.
    #[verifier::rlimit(100)]
    #[verifier::spinoff_prover]
    pub fn run(&mut self) -> (r: EmulationStatus)
        requires
            old(self).wf(),
        ensures
            final(self).cpu.wf(),
            final(self).bus.wf(),
            final(self).frame.wf(),
            exists|rv: u8| rv < 255 && #[trigger] spec_context_step(*old(self), *final(self), r, rv),
            final(self).cpu_cycle == old(self).cpu_cycle + (final(self).cpu.cycles - old(
                self,
            ).cpu.cycles),
            final(self).ppu_cycle == old(self).ppu_cycle + 3 * (final(self).cpu.cycles - old(
                self,
            ).cpu.cycles),
    {
        let res = self.cpu.run(&mut self.bus);
        let cycles = res.0;
        let status = res.1;
        let ghost rv0 = choose|rv: u8|
            rv < 255 && #[trigger] spec_step(step_entry(old(self).cpu), old(self).bus@, rv) == (
            StepOut { cpu: self.cpu, bus: self.bus@, cycles: res.0, status: res.1 });
        let ghost so = spec_step(step_entry(old(self).cpu), old(self).bus@, rv0);
        let ghost pos0 = dot_index(old(self).bus.ppu.line, old(self).bus.ppu.dot);
        let ghost bg0 = old(self).bus.ppu.background@;
        let ghost nn = DOTS_PER_FRAME as int;
        proof {
            reveal(crate::cpu::spec_step);
            assert(so.cpu.interrupt == CPUInterrupts::INTERRUPTNONE);
            lemma_mod_identity(pos0, nn);
        }
        let mut i: Cycle = 0;
        while i < cycles * 3
            invariant
                self.cpu.wf(),
                self.bus.wf(),
                self.frame.wf(),
                i <= cycles * 3,
                cycles * 3 <= 0x33000,
                rv0 < 255,
                so == spec_step(step_entry(old(self).cpu), old(self).bus@, rv0),
                so.cycles == cycles,
                so.status == status,
                nn == DOTS_PER_FRAME as int,
                pos0 == dot_index(old(self).bus.ppu.line, old(self).bus.ppu.dot),
                0 <= pos0 < nn,
                self.cpu.register == so.cpu.register,
                self.cpu.cycles == so.cpu.cycles,
                self.cpu.extra_cycle == so.cpu.extra_cycle,
                self.cpu.page_crossed == so.cpu.page_crossed,
                self.cpu.interrupt == (if spec_nmi_in_ticks(
                    so.bus.reg,
                    bg0,
                    so.bus.mem,
                    pos0,
                    i as nat,
                ) {
                    CPUInterrupts::INTERRUPTNMI
                } else {
                    CPUInterrupts::INTERRUPTNONE
                }),
                self.bus.ram@ == so.bus.ram,
                self.bus.rom.program@ == so.bus.prg,
                self.bus.controller == so.bus.ctl,
                self.bus.dma_pending == so.bus.dma_pending,
                self.bus.ppu.mem@ == so.bus.mem,
                self.bus.ppu.updated == so.bus.updated,
                self.bus.ppu.nmi_latch == so.bus.nmi_latch,
                self.bus.ppu.register == spec_run_ppu_n(
                    so.bus.reg,
                    bg0,
                    so.bus.mem,
                    pos0,
                    i as nat,
                ).0,
                self.bus.ppu.background@ == spec_run_ppu_n(
                    so.bus.reg,
                    bg0,
                    so.bus.mem,
                    pos0,
                    i as nat,
                ).1,
                dot_index(self.bus.ppu.line, self.bus.ppu.dot) == (pos0 + i) % nn,
                self.frame_ready == (old(self).frame_ready || pos0 + i >= nn),
                self.bus.ppu.tileset@ == old(self).bus.ppu.tileset@,
                self.bus.rom.character@ == old(self).bus.rom.character@,
                self.bus.rom.mirroring == old(self).bus.rom.mirroring,
                self.bus.rom.size == old(self).bus.rom.size,
                self.bus.rom.offset == old(self).bus.rom.offset,
                self.cpu_cycle == old(self).cpu_cycle,
                self.ppu_cycle == old(self).ppu_cycle,
                old(self).cpu_cycle + 0x22000 <= u64::MAX,
                old(self).ppu_cycle + 0x40000 <= u64::MAX,
            decreases cycles * 3 - i,
        {
            proof {
                let p = (pos0 + i) % nn;
                vstd::arithmetic::div_mod::lemma_fundamental_div_mod_converse(
                    p,
                    341,
                    self.bus.ppu.line as int,
                    self.bus.ppu.dot as int,
                );
                assert(self.bus.ppu.line == line_of(p) && self.bus.ppu.dot == dot_of(p));
            }
            let ppu_status = self.bus.ppu.run(&mut self.frame);
            if ppu_status == PpuStatus::INTERRUPTNMI {
                self.cpu.trigger_nmi();
            } else if ppu_status == PpuStatus::RENDERING {
                self.frame_ready = true;
            }
            proof {
                lemma_mod_step(pos0 + i, nn);
                if pos0 + i < nn {
                    lemma_mod_identity(pos0 + i, nn);
                }
            }
            i = i + 1;
        }
        if self.bus.ppu.nmi_latch {
            self.bus.ppu.nmi_latch = false;
            self.cpu.trigger_nmi();
        }
        self.cpu_cycle = self.cpu_cycle + cycles;
        self.ppu_cycle = self.ppu_cycle + cycles * 3;
        proof {
            assert(spec_context_step(*old(self), *self, status, rv0));
        }
        status
    }

    /// Cold restart: RAM zeroed, the PPU back at power-on with the
    /// cartridge's CHR re-decoded, the frame black, and the CPU through
    /// its reset vector; seven cycles on the fresh counter.
    pub fn reset(&mut self)
        requires
            old(self).wf(),
        ensures
            final(self).cpu.wf(),
            final(self).bus.wf(),
            final(self).frame.wf(),
            final(self).bus.ram@ == Seq::<u8>::new(RAM_SIZE as nat, |i: int| 0u8),
            final(self).bus.ppu.register == PpuRegister::spec_power_on(),
            final(self).bus.rom.program@ == old(self).bus.rom.program@,
            final(self).bus.rom.character@ == old(self).bus.rom.character@,
            final(self).bus.rom.mirroring == old(self).bus.rom.mirroring,
            old(self).bus.rom.wf() ==> {
                &&& forall|i: int|
                    0 <= i < 0x2000 ==> final(self).bus.ppu.mem@.chr[i] == old(
                        self,
                    ).bus.rom.character@[i]
                &&& final(self).bus.ppu.mem@.mirroring == old(self).bus.rom.mirroring
                &&& final(self).bus.ppu.tileset@.len() == 256
            },
            forall|i: int| 0 <= i < FRAME_BYTES ==> final(self).frame@[i] == 0u8,
            !final(self).frame_ready,
            final(self).cpu.register.r_sp == 0xFD,
            flags_byte(final(self).cpu.register) == 0x24,
            final(self).cpu.register.r_pc == ((bus_read_val(final(self).bus@, 0xFFFD) as u16)
                << 8) | (bus_read_val(final(self).bus@, 0xFFFC) as u16),
            final(self).cpu_cycle == 7,
            final(self).ppu_cycle == 0,
    {
        self.bus.ram = Ram::new();
        self.cpu_cycle = 0;
        self.ppu_cycle = 0;
        self.bus.ppu.reset();
        let prg_len = self.bus.rom.program.len();
        let chr_len = self.bus.rom.character.len();
        if (prg_len == 0x4000 || prg_len == 0x8000) && chr_len == 0x2000 {
            self.bus.ppu.init(&self.bus.rom);
        }
        self.frame.reset();
        self.frame_ready = false;
        let c = self.cpu.reset(&mut self.bus);
        self.cpu_cycle = self.cpu_cycle + c;
    }
}

} // verus!
