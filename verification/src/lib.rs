//! Cycle-exact emulation core for the dual-timer peripheral I/O chip of a
//! classic 8-bit home computer: interval-timer state machines, the
//! interrupt-control register, a BCD time-of-day clock with alarm, and the
//! memory-mapped register file with mirrored-address folding.
//!
//! The core is pure state: every cross-chip effect (asserting a CPU interrupt
//! line, shadowing a register into the bus's I/O bank, notifying the video
//! chip) is returned to the caller as a plain value instead of being performed
//! through a shared reference.

mod chip;
mod interrupt;
mod matrix;
mod orchestrator;
mod pacer;
mod registers;
mod timer;
mod tod;
mod util;

pub use timer::CIATimer;
pub use timer::TimerState;
pub use timer::lemma_cascade_gates_countdown;
pub use timer::lemma_control_write_one_cycle_latency;
pub use timer::spec_stage_ctrl;
pub use timer::spec_timer_power_on;
pub use timer::spec_timer_update;
pub use interrupt::InterruptController;
pub use interrupt::lemma_summary_bit_raise;
pub use interrupt::lemma_summary_bit_read_and_clear;
pub use interrupt::lemma_summary_bit_write_mask;
pub use interrupt::spec_raise;
pub use interrupt::spec_write_mask;
pub use interrupt::summary_bit_ok;
pub use chip::CIA;
pub use chip::CpuCallback;
pub use chip::VideoSignal;
pub use chip::WriteEffects;
pub use chip::spec_cia_power_on;
pub use chip::spec_cia_update;
pub use chip::spec_cia_wf;
pub use chip::spec_count_tod;
pub use chip::spec_process_irq;
pub use matrix::MatrixRows;
pub use orchestrator::BootState;
pub use orchestrator::CyclePlan;
pub use orchestrator::Orchestrator;
pub use pacer::ClockPacer;
pub use registers::lemma_high_latch_write_reload;
pub use registers::lemma_hours_read_freezes_clock;
pub use registers::lemma_mirrored_address_folding;
pub use registers::spec_fold_addr;
pub use registers::spec_page;
pub use registers::spec_read_register;
pub use registers::spec_write_register;
pub use matrix::spec_and_selected_rows;
pub use pacer::spec_cycles_due;
pub use tod::TimeOfDayClock;
pub use tod::lemma_halted_clock_is_frozen;
pub use tod::spec_tod_tick;
pub use tod::spec_tod_wf;
pub use util::OpDebugger;
pub use util::fetch_c64_color_rgba;
pub use util::memset8;
