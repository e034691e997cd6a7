//! The sampler: sound as a diary of changes rather than of values.

use vstd::prelude::*;

verus! {

/// How many cycles between bits of a sample, for each of the sixteen
/// playback rates.
pub const DMC_RATES: [u16; 16] = [
    428, 380, 340, 320, 286, 254, 226, 214, 190, 160, 142, 128, 106, 84, 72, 54,
];

/// The fifth voice, a sampler one bit at a time. Each bit nudges a
/// seven-bit level up or down by two.
#[derive(Clone, Copy)]
pub struct Dmc {
    /// Raise an interrupt when the sample ends.
    pub irq_enabled: bool,
    /// Start the sample over instead of stopping.
    pub loop_flag: bool,
    /// The seven-bit level the channel presents to the mixer.
    pub level: u8,
    /// The one-byte buffer between the memory reader and the output unit.
    pub buffer: Option<u8>,
    /// The output unit: eight bits shifting out of one byte.
    pub shift: u8,
    pub bits_remaining: u8,
    /// Silent means the level holds still, not that it drops.
    pub silence: bool,
    /// Where the next sample byte lives, and how many remain.
    pub current_address: u16,
    pub bytes_remaining: u16,
    /// The raw address and length registers, kept to restart from.
    pub sample_address: u8,
    pub sample_length: u8,
    /// Cycles between output bits, from [`DMC_RATES`].
    pub timer: u16,
    pub timer_value: u16,
    /// A byte the channel wants fetched. It cannot read memory itself.
    pub pending_fetch: Option<u16>,
    /// Cycles before a fetch that a start asked for may surface.
    pub start_delay: u8,
    /// Set when a sample ends with the interrupt enabled.
    pub irq_pending: bool,
}

impl Dmc {
    /// A channel at rest, its output unit about to shift eight silent bits.
    pub open spec fn idle() -> Dmc {
        Dmc {
            irq_enabled: false,
            loop_flag: false,
            level: 0,
            buffer: None,
            shift: 0,
            bits_remaining: 8,
            silence: true,
            current_address: 0,
            bytes_remaining: 0,
            sample_address: 0,
            sample_length: 0,
            timer: 428,
            timer_value: 1,
            pending_fetch: None,
            start_delay: 0,
            irq_pending: false,
        }
    }

    /// What every operation keeps: seven bits of level, and one to eight
    /// bits left in the output unit.
    pub open spec fn wf(self) -> bool {
        &&& self.level <= 0x7F
        &&& 1 <= self.bits_remaining <= 8
        &&& self.bytes_remaining <= 0xFF1
    }

    /// A control write: rate, loop, and the interrupt switch.
    pub open spec fn control_written(self, value: u8) -> Dmc {
        Dmc {
            irq_enabled: value & 0b1000_0000 != 0,
            loop_flag: value & 0b0100_0000 != 0,
            timer: DMC_RATES@[value as int % 16],
            irq_pending: self.irq_pending && value & 0b1000_0000 != 0,
            ..self
        }
    }

    /// The reader pointed back at the sample's start: $C000 plus 64-byte
    /// steps, for 16-byte steps plus one.
    pub open spec fn restarted(self) -> Dmc {
        Dmc {
            current_address: (0xC000 + self.sample_address * 64) as u16,
            bytes_remaining: (self.sample_length * 16 + 1) as u16,
            ..self
        }
    }

    /// Whether the reader has room for a byte, a byte to ask for, and no
    /// question outstanding.
    pub open spec fn wants_byte(self) -> bool {
        self.buffer is None && self.bytes_remaining > 0 && self.pending_fetch is None
    }

    /// The switch: on starts the sample, unless one is mid-flight; off stops
    /// it now. A start that finds the reader waiting delays it by three
    /// cycles or two.
    pub open spec fn enabled_set(self, enabled: bool, on_even_cycle: bool) -> Dmc {
        if enabled {
            let aimed = if self.bytes_remaining == 0 {
                self.restarted()
            } else {
                self
            };
            Dmc {
                start_delay: if !aimed.wants_byte() {
                    aimed.start_delay
                } else if on_even_cycle {
                    3
                } else {
                    2
                },
                ..aimed
            }
        } else {
            Dmc { bytes_remaining: 0, ..self }
        }
    }

    /// The memory reader's part of a cycle: the delay runs down, and at its
    /// end the reader asks for a byte if it wants one.
    pub open spec fn reader_ticked(self) -> Dmc {
        let waited = Dmc {
            start_delay: if self.start_delay > 0 {
                (self.start_delay - 1) as u8
            } else {
                0
            },
            ..self
        };
        if waited.start_delay == 0 && waited.wants_byte() {
            Dmc { pending_fetch: Some(waited.current_address), ..waited }
        } else {
            waited
        }
    }

    /// One output bit: a one nudges the level up by two, a zero down by two,
    /// where there is room.
    pub open spec fn nudged(self) -> Dmc {
        if self.silence {
            self
        } else {
            Dmc {
                level: if self.shift % 2 == 1 {
                    if self.level <= 0x7D {
                        (self.level + 2) as u8
                    } else {
                        self.level
                    }
                } else if self.level >= 2 {
                    (self.level - 2) as u8
                } else {
                    self.level
                },
                shift: self.shift / 2,
                ..self
            }
        }
    }

    /// The end of a byte: the output unit takes the buffered one and the
    /// reader asks for the next, or the unit falls silent.
    pub open spec fn refilled(self) -> Dmc {
        match self.buffer {
            Some(byte) => Dmc {
                bits_remaining: 8,
                silence: false,
                shift: byte,
                buffer: None,
                pending_fetch: if self.bytes_remaining > 0 && self.pending_fetch is None {
                    Some(self.current_address)
                } else {
                    self.pending_fetch
                },
                ..self
            },
            None => Dmc { bits_remaining: 8, silence: true, ..self },
        }
    }

    /// The output unit's part of a cycle: every `timer` cycles one bit, and
    /// every eight bits a byte.
    pub open spec fn output_ticked(self) -> Dmc {
        if self.timer_value > 0 {
            Dmc { timer_value: (self.timer_value - 1) as u16, ..self }
        } else {
            let played = Dmc {
                timer_value: if self.timer > 0 {
                    (self.timer - 1) as u16
                } else {
                    0
                },
                ..self.nudged()
            };
            if played.bits_remaining <= 1 {
                played.refilled()
            } else {
                Dmc { bits_remaining: (played.bits_remaining - 1) as u8, ..played }
            }
        }
    }

    /// One cycle: the reader, then the output unit.
    pub open spec fn ticked(self) -> Dmc {
        self.reader_ticked().output_ticked()
    }

    /// The byte that was asked for arrives: it is buffered, the reader moves
    /// on, and the last byte loops or raises the interrupt. A byte for a
    /// sample that was called off changes nothing.
    pub open spec fn supplied(self, value: u8) -> Dmc {
        if self.bytes_remaining == 0 {
            self
        } else {
            let taken = Dmc {
                buffer: Some(value),
                current_address: if self.current_address == 0xFFFF {
                    0x8000
                } else {
                    (self.current_address + 1) as u16
                },
                bytes_remaining: (self.bytes_remaining - 1) as u16,
                ..self
            };
            if taken.bytes_remaining > 0 {
                taken
            } else if self.loop_flag {
                taken.restarted()
            } else if self.irq_enabled {
                Dmc { irq_pending: true, ..taken }
            } else {
                taken
            }
        }
    }

    /// A channel at rest, its output unit about to shift eight silent bits.
    pub fn new() -> (dmc: Dmc)
        ensures
            dmc.wf(),
            dmc == Self::idle(),
    {
        Dmc {
            irq_enabled: false,
            loop_flag: false,
            level: 0,
            buffer: None,
            shift: 0,
            bits_remaining: 8,
            silence: true,
            current_address: 0,
            bytes_remaining: 0,
            sample_address: 0,
            sample_length: 0,
            timer: DMC_RATES[0],
            timer_value: 1,
            pending_fetch: None,
            start_delay: 0,
            irq_pending: false,
        }
    }

    /// $4010: rate, loop, and the interrupt switch. Switching the interrupt
    /// off also drops one already raised.
    pub fn write_control(&mut self, value: u8)
        ensures
            *final(self) == old(self).control_written(value),
            old(self).wf() ==> final(self).wf(),
    {
        self.irq_enabled = value & 0b1000_0000 != 0;
        self.loop_flag = value & 0b0100_0000 != 0;
        self.timer = DMC_RATES[(value % 16) as usize];
        if !self.irq_enabled {
            self.irq_pending = false;
        }
    }

    /// $4011: write the level directly.
    pub fn write_level(&mut self, value: u8)
        ensures
            *final(self) == (Dmc { level: value % 128, ..*old(self) }),
            old(self).wf() ==> final(self).wf(),
    {
        self.level = value % 128;
    }

    /// $4012: where the sample starts.
    pub fn write_address(&mut self, value: u8)
        ensures
            *final(self) == (Dmc { sample_address: value, ..*old(self) }),
            old(self).wf() ==> final(self).wf(),
    {
        self.sample_address = value;
    }

    /// $4013: how long it is.
    pub fn write_length(&mut self, value: u8)
        ensures
            *final(self) == (Dmc { sample_length: value, ..*old(self) }),
            old(self).wf() ==> final(self).wf(),
    {
        self.sample_length = value;
    }

    /// Point the reader back at the sample's start.
    pub fn restart(&mut self)
        ensures
            *final(self) == old(self).restarted(),
            old(self).wf() ==> final(self).wf(),
    {
        self.current_address = 0xC000 + self.sample_address as u16 * 64;
        self.bytes_remaining = self.sample_length as u16 * 16 + 1;
    }

    /// The $4015 bit: enabling starts the sample, unless one is mid-flight;
    /// disabling stops it now. The parity decides the start-up delay.
    pub fn set_enabled(&mut self, enabled: bool, on_even_cycle: bool)
        ensures
            *final(self) == old(self).enabled_set(enabled, on_even_cycle),
            old(self).wf() ==> final(self).wf(),
    {
        if enabled {
            if self.bytes_remaining == 0 {
                self.restart();
            }
            if self.buffer.is_none() && self.bytes_remaining > 0 && self.pending_fetch.is_none() {
                self.start_delay = if on_even_cycle {
                    3
                } else {
                    2
                };
            }
        } else {
            self.bytes_remaining = 0;
        }
    }

    /// One cycle. The timer and output unit free-run from power-on; the
    /// switch gates only the memory reader.
    pub fn tick(&mut self)
        ensures
            *final(self) == old(self).ticked(),
            old(self).wf() ==> final(self).wf(),
    {
        if self.start_delay > 0 {
            self.start_delay = self.start_delay - 1;
        }
        // The reader asks the moment the buffer is empty and bytes remain,
        // independently of the output unit.
        if self.start_delay == 0 && self.buffer.is_none() && self.bytes_remaining > 0
            && self.pending_fetch.is_none() {
            self.pending_fetch = Some(self.current_address);
        }
        self.tick_output();
    }

    /// The output unit's part of a cycle.
    fn tick_output(&mut self)
        ensures
            *final(self) == old(self).output_ticked(),
            old(self).wf() ==> final(self).wf(),
    {
        if self.timer_value == 0 {
            // One less than the period: acting at zero and reloading with
            // the full value would stretch every rate by one.
            self.timer_value = self.timer.saturating_sub(1);
            if !self.silence {
                if self.shift % 2 != 0 {
                    if self.level <= 0x7D {
                        self.level = self.level + 2;
                    }
                } else if self.level >= 0x02 {
                    self.level = self.level - 2;
                }
                self.shift = self.shift / 2;
            }
            self.bits_remaining = self.bits_remaining.saturating_sub(1);
            if self.bits_remaining == 0 {
                self.bits_remaining = 8;
                match self.buffer {
                    Some(byte) => {
                        self.buffer = None;
                        self.silence = false;
                        self.shift = byte;
                        // Ask for the refill in this same cycle.
                        if self.bytes_remaining > 0 && self.pending_fetch.is_none() {
                            self.pending_fetch = Some(self.current_address);
                        }
                    },
                    None => {
                        self.silence = true;
                    },
                }
            }
        } else {
            self.timer_value = self.timer_value - 1;
        }
    }

    /// The address the channel wants read, if any. Clears the ask.
    pub fn take_fetch(&mut self) -> (fetch: Option<u16>)
        ensures
            fetch == old(self).pending_fetch,
            *final(self) == (Dmc { pending_fetch: None, ..*old(self) }),
            old(self).wf() ==> final(self).wf(),
    {
        let fetch = self.pending_fetch;
        self.pending_fetch = None;
        fetch
    }

    /// The answer. A byte for a sample that was called off in the meantime
    /// changes nothing.
    pub fn supply(&mut self, value: u8)
        ensures
            *final(self) == old(self).supplied(value),
            old(self).wf() ==> final(self).wf(),
    {
        if self.bytes_remaining == 0 {
            return;
        }
        self.buffer = Some(value);
        self.current_address = if self.current_address == 0xFFFF {
            0x8000
        } else {
            self.current_address + 1
        };
        self.bytes_remaining = self.bytes_remaining - 1;
        if self.bytes_remaining == 0 {
            if self.loop_flag {
                self.restart();
            } else if self.irq_enabled {
                self.irq_pending = true;
            }
        }
    }
}

/// `cycles` cycles in a row.
pub open spec fn ticked_times(dmc: Dmc, cycles: nat) -> Dmc
    decreases cycles,
{
    if cycles == 0 {
        dmc
    } else {
        ticked_times(dmc, (cycles - 1) as nat).ticked()
    }
}

/// The level never leaves its seven bits, however long the channel runs,
/// and moves by two at most in a cycle.
pub proof fn law_level_keeps_its_seven_bits(dmc: Dmc, cycles: nat)
    requires
        dmc.wf(),
    ensures
        ticked_times(dmc, cycles).wf(),
        ticked_times(dmc, cycles).level <= 0x7F,
        -2 <= ticked_times(dmc, cycles + 1).level - ticked_times(dmc, cycles).level <= 2,
    decreases cycles,
{
    reveal_with_fuel(ticked_times, 2);
    if cycles > 0 {
        law_level_keeps_its_seven_bits(dmc, (cycles - 1) as nat);
    }
}

/// A silent channel holds its level still: nothing but a byte to play moves
/// it.
pub proof fn law_silence_holds_the_level(dmc: Dmc)
    requires
        dmc.silence,
    ensures
        dmc.ticked().level == dmc.level,
{
}

/// A sample that was called off stays off: a byte that arrives late changes
/// nothing.
pub proof fn law_late_byte_changes_nothing(dmc: Dmc, on_even_cycle: bool, value: u8)
    ensures
        dmc.enabled_set(false, on_even_cycle).supplied(value) == dmc.enabled_set(false, on_even_cycle),
        dmc.enabled_set(false, on_even_cycle).bytes_remaining == 0,
{
}

/// The supplies of a whole sample, one after another.
pub open spec fn supplied_all(dmc: Dmc, values: Seq<u8>) -> Dmc
    decreases values.len(),
{
    if values.len() == 0 {
        dmc
    } else {
        supplied_all(dmc, values.drop_last()).supplied(values.last())
    }
}

/// A sample that neither loops nor is called off ends exactly with its last
/// byte: until then it still plays and no interrupt is raised, and with the
/// last byte it stops, and raises the interrupt if that is enabled.
pub proof fn law_sample_ends_with_its_last_byte(dmc: Dmc, values: Seq<u8>)
    requires
        !dmc.loop_flag,
        !dmc.irq_pending,
        values.len() <= dmc.bytes_remaining,
        dmc.bytes_remaining > 0,
    ensures
        ({
            let after = supplied_all(dmc, values);
            &&& after.bytes_remaining == dmc.bytes_remaining - values.len()
            &&& after.irq_pending == (dmc.irq_enabled && values.len() == dmc.bytes_remaining)
            &&& !after.loop_flag
            &&& after.irq_enabled == dmc.irq_enabled
        }),
    decreases values.len(),
{
    if values.len() > 0 {
        law_sample_ends_with_its_last_byte(dmc, values.drop_last());
    }
}

/// The sixteen rates, fastest last.
pub proof fn law_rates_are_the_table(i: int)
    requires
        0 <= i < 16,
    ensures
        DMC_RATES@[i] == seq![428u16, 380, 340, 320, 286, 254, 226, 214, 190, 160, 142, 128, 106, 84, 72, 54][i],
{
}

/// A control write, field by field: bit 7 is the interrupt's switch, which
/// drops one that is up when it goes off, bit 6 the loop, and the low four
/// bits pick the rate.
pub proof fn law_sampler_obeys(dmc: Dmc, value: u8)
    ensures
        ({
            let after = dmc.control_written(value);
            &&& after.irq_enabled == (value & 0b1000_0000 != 0)
            &&& after.loop_flag == (value & 0b0100_0000 != 0)
            &&& after.timer == DMC_RATES@[value as int % 16]
            &&& after.irq_pending == (dmc.irq_pending && value & 0b1000_0000 != 0)
            &&& after == (Dmc {
                irq_enabled: after.irq_enabled,
                loop_flag: after.loop_flag,
                timer: after.timer,
                irq_pending: after.irq_pending,
                ..dmc
            })
        }),
{
}

/// The switch: off leaves no byte to play and changes nothing else; on points
/// a finished reader at $C000 and 64 bytes for each step of the address, with
/// 16 bytes for each step of the length and one more, leaves a running one
/// where it is, and where a byte can be asked for makes it wait three cycles
/// or two.
pub proof fn law_switch_starts_the_sample(dmc: Dmc, even: bool)
    ensures
        dmc.enabled_set(false, even) == (Dmc { bytes_remaining: 0, ..dmc }),
        ({
            let after = dmc.enabled_set(true, even);
            &&& dmc.bytes_remaining == 0 ==> after.current_address == 0xC000 + 64 * dmc.sample_address
                && after.bytes_remaining == 16 * dmc.sample_length + 1
            &&& dmc.bytes_remaining != 0 ==> after.current_address == dmc.current_address && after.bytes_remaining
                == dmc.bytes_remaining
            &&& after.start_delay == if dmc.buffer is Some || dmc.pending_fetch is Some {
                dmc.start_delay
            } else if even {
                3
            } else {
                2
            }
            &&& after == (Dmc {
                current_address: after.current_address,
                bytes_remaining: after.bytes_remaining,
                start_delay: after.start_delay,
                ..dmc
            })
        }),
{
}

/// A byte that arrives, field by field: it waits in the buffer, the reader
/// moves to the next address, from the last one to $8000, and with the last
/// byte a looping sample begins again and another raises the interrupt if it
/// may.
pub proof fn law_byte_arrives(dmc: Dmc, value: u8)
    requires
        dmc.bytes_remaining > 0,
    ensures
        ({
            let after = dmc.supplied(value);
            let over = dmc.bytes_remaining == 1;
            &&& after.buffer == Some(value)
            &&& !(over && dmc.loop_flag) ==> after.bytes_remaining == dmc.bytes_remaining - 1 && after.current_address
                == if dmc.current_address == 0xFFFF {
                0x8000
            } else {
                dmc.current_address + 1
            }
            &&& over && dmc.loop_flag ==> after.bytes_remaining == 16 * dmc.sample_length + 1 && after.current_address
                == 0xC000 + 64 * dmc.sample_address
            &&& after.irq_pending == (dmc.irq_pending || over && !dmc.loop_flag && dmc.irq_enabled)
            &&& after == (Dmc {
                buffer: after.buffer,
                bytes_remaining: after.bytes_remaining,
                current_address: after.current_address,
                irq_pending: after.irq_pending,
                ..dmc
            })
        }),
{
}

/// The reader's part of a cycle: a waiting start waits one less, and when
/// there is nothing to wait for, an empty buffer with bytes to come asks for
/// the next one, once.
pub proof fn law_reader_asks_for_its_bytes(dmc: Dmc)
    ensures
        ({
            let after = dmc.reader_ticked();
            &&& after.start_delay == if dmc.start_delay == 0 {
                0
            } else {
                dmc.start_delay - 1
            }
            &&& after.pending_fetch == if dmc.start_delay <= 1 && dmc.buffer is None && dmc.bytes_remaining != 0
                && dmc.pending_fetch is None {
                Some(dmc.current_address)
            } else {
                dmc.pending_fetch
            }
            &&& after == (Dmc { start_delay: after.start_delay, pending_fetch: after.pending_fetch, ..dmc })
        }),
{
}

/// The output unit's part of a cycle. Between bits only its timer counts.
/// On a bit the timer begins again one below the period; unless it is silent,
/// a one raises the level by two and a zero lowers it, where it stays within
/// seven bits, and the next bit comes up. After the last of eight the unit
/// takes the waiting byte, and the reader may ask for another; without one it
/// falls silent.
pub proof fn law_output_plays_its_bits(dmc: Dmc)
    requires
        dmc.wf(),
    ensures
        ({
            let after = dmc.output_ticked();
            let last = dmc.bits_remaining == 1;
            let bit = dmc.timer_value == 0;
            &&& !bit ==> after == (Dmc { timer_value: (dmc.timer_value - 1) as u16, ..dmc })
            &&& bit ==> after.timer_value == if dmc.timer == 0 {
                0
            } else {
                dmc.timer - 1
            }
            &&& bit && dmc.silence ==> after.level == dmc.level
            &&& bit && !dmc.silence && dmc.shift % 2 == 1 ==> after.level == if dmc.level <= 125 {
                dmc.level + 2
            } else {
                dmc.level as int
            }
            &&& bit && !dmc.silence && dmc.shift % 2 == 0 ==> after.level == if dmc.level >= 2 {
                dmc.level - 2
            } else {
                dmc.level as int
            }
            &&& bit && !last ==> after.bits_remaining == dmc.bits_remaining - 1 && after.silence == dmc.silence
                && after.buffer == dmc.buffer && after.pending_fetch == dmc.pending_fetch && after.shift
                == if dmc.silence {
                dmc.shift
            } else {
                dmc.shift / 2
            }
            &&& bit && last ==> after.bits_remaining == 8 && after.silence == (dmc.buffer is None) && after.buffer
                is None
            &&& bit && last && dmc.buffer is Some ==> after.shift == dmc.buffer->0 && after.pending_fetch
                == if dmc.bytes_remaining != 0 && dmc.pending_fetch is None {
                Some(dmc.current_address)
            } else {
                dmc.pending_fetch
            }
            &&& bit && last && dmc.buffer is None ==> after.pending_fetch == dmc.pending_fetch
            &&& dmc.ticked() == dmc.reader_ticked().output_ticked()
            &&& after.current_address == dmc.current_address && after.bytes_remaining == dmc.bytes_remaining
                && after.timer == dmc.timer && after.irq_pending == dmc.irq_pending && after.irq_enabled
                == dmc.irq_enabled && after.loop_flag == dmc.loop_flag && after.sample_address == dmc.sample_address
                && after.sample_length == dmc.sample_length && after.start_delay == dmc.start_delay
        }),
{
}

/// The sampler at rest: silent, at level zero, eight bits to go at the
/// slowest rate, with nothing to fetch and nothing asked for.
pub proof fn law_sampler_rests_silent()
    ensures
        ({
            let dmc = Dmc::idle();
            &&& dmc.level == 0 && dmc.silence && dmc.bits_remaining == 8 && dmc.shift == 0
            &&& dmc.timer == 428 && dmc.timer_value == 1
            &&& dmc.buffer is None && dmc.pending_fetch is None && dmc.start_delay == 0
            &&& dmc.sample_address == 0 && dmc.sample_length == 0
            &&& dmc.current_address == 0 && dmc.bytes_remaining == 0
            &&& !dmc.irq_enabled && !dmc.loop_flag && !dmc.irq_pending
        }),
{
}

} // verus!
