//! Virtual fan device driver for development, testing, and simulation.
//!
//! A driver holds a fixed number of simulated fans and one RPM ceiling that
//! all of them share. Every operation first checks the fan selection, then
//! the range of the value; a refused operation changes nothing.

use vstd::prelude::*;

use crate::control::FanControl;
use crate::select::FanSelect;
use crate::{FanDutyCycle, FanRpm};

verus! {

/// Duty cycle which virtual fans are set to by default.
pub const DEFAULT_DUTY_CYCLE: u8 = 50;

/// RPM which virtual fans are set to by default.
pub const DEFAULT_RPM: u16 = 500;

/// Maximum RPM value that a virtual fan can reach by default.
pub const DEFAULT_RPM_MAXIMUM: u16 = 2_000;

/// Largest duty cycle that a virtual fan accepts, in percent.
pub const DUTY_CYCLE_MAXIMUM: u8 = 100;

/// Reasons for which a driver refuses an operation.
#[derive(Clone, Copy, Debug, PartialEq, Eq, Structural)]
pub enum Error {
    /// The duty cycle is above 100 percent.
    DutyCycleOutOfRange,
    /// The selection names no fan of the driver.
    InvalidFan,
    /// The RPM is above the driver's ceiling.
    RpmOutOfRange,
}

/// State of one simulated fan.
#[derive(Clone, Copy, Debug, PartialEq, Eq, Structural)]
pub struct VirtualFan {
    /// Duty cycle last set, in percent.
    pub duty_cycle: FanDutyCycle,
    /// RPM last set.
    pub rpm: FanRpm,
    /// Control last applied.
    pub mode: FanControl,
}

impl VirtualFan {
    /// The state in which every fan starts.
    pub open spec fn initial() -> VirtualFan {
        VirtualFan {
            duty_cycle: DEFAULT_DUTY_CYCLE,
            rpm: DEFAULT_RPM,
            mode: FanControl::DutyCycle(DEFAULT_DUTY_CYCLE),
        }
    }

    /// A fan never holds a duty cycle above 100 percent, neither as its duty
    /// cycle nor as its control.
    pub open spec fn wf(self) -> bool {
        &&& self.duty_cycle <= DUTY_CYCLE_MAXIMUM
        &&& self.mode matches FanControl::DutyCycle(duty_cycle) ==> duty_cycle
            <= DUTY_CYCLE_MAXIMUM
    }
}

impl Default for VirtualFan {
    fn default() -> (fan: Self)
        ensures
            fan == VirtualFan::initial(),
    {
        VirtualFan {
            duty_cycle: DEFAULT_DUTY_CYCLE,
            rpm: DEFAULT_RPM,
            mode: FanControl::DutyCycle(DEFAULT_DUTY_CYCLE),
        }
    }
}

/// What a driver holds: its fans in order, fan 1 first, and the RPM ceiling.
pub struct DriverState {
    pub fans: Seq<VirtualFan>,
    pub rpm_maximum: FanRpm,
}

impl DriverState {
    /// The state of a new driver with `count` fans.
    pub open spec fn initial(count: nat) -> DriverState {
        DriverState {
            fans: Seq::new(count, |i: int| VirtualFan::initial()),
            rpm_maximum: DEFAULT_RPM_MAXIMUM,
        }
    }

    /// Every fan of the driver is well formed.
    pub open spec fn wf(self) -> bool {
        forall|i: int| 0 <= i < self.fans.len() ==> (#[trigger] self.fans[i]).wf()
    }

    /// Whether `select` names a fan of the driver: fans are counted from 1.
    pub open spec fn selects(self, select: FanSelect) -> bool {
        1 <= select.0 <= self.fans.len()
    }

    /// The fan that `select` names.
    pub open spec fn fan(self, select: FanSelect) -> VirtualFan
        recommends
            self.selects(select),
    {
        self.fans[select.0 - 1]
    }

    /// The state in which `fan` stands in the place that `select` names, and
    /// all else is as in `self`.
    pub open spec fn with_fan(self, select: FanSelect, fan: VirtualFan) -> DriverState
        recommends
            self.selects(select),
    {
        DriverState { fans: self.fans.update(select.0 - 1, fan), rpm_maximum: self.rpm_maximum }
    }

    /// Outcome of checking a selection.
    pub open spec fn valid_fan(self, select: FanSelect) -> Result<(), Error> {
        if self.selects(select) {
            Ok(())
        } else {
            Err(Error::InvalidFan)
        }
    }

    /// Outcome of reading a fan's duty cycle.
    pub open spec fn duty_cycle(self, select: FanSelect) -> Result<FanDutyCycle, Error> {
        if self.selects(select) {
            Ok(self.fan(select).duty_cycle)
        } else {
            Err(Error::InvalidFan)
        }
    }

    /// Outcome of reading a fan's RPM.
    pub open spec fn rpm(self, select: FanSelect) -> Result<FanRpm, Error> {
        if self.selects(select) {
            Ok(self.fan(select).rpm)
        } else {
            Err(Error::InvalidFan)
        }
    }

    /// Outcome of reading a fan's duty cycle and RPM together.
    pub open spec fn report(self, select: FanSelect) -> Result<(FanDutyCycle, FanRpm), Error> {
        if self.selects(select) {
            Ok((self.fan(select).duty_cycle, self.fan(select).rpm))
        } else {
            Err(Error::InvalidFan)
        }
    }

    /// Outcome of reading the control last applied to a fan.
    pub open spec fn mode(self, select: FanSelect) -> Result<FanControl, Error> {
        if self.selects(select) {
            Ok(self.fan(select).mode)
        } else {
            Err(Error::InvalidFan)
        }
    }

    /// Outcome of setting a duty cycle: the state that follows, and the
    /// result of the operation.
    pub open spec fn set_duty_cycle(self, select: FanSelect, duty_cycle: FanDutyCycle) -> (
        DriverState,
        Result<(), Error>,
    ) {
        if !self.selects(select) {
            (self, Err(Error::InvalidFan))
        } else if duty_cycle > DUTY_CYCLE_MAXIMUM {
            (self, Err(Error::DutyCycleOutOfRange))
        } else {
            (
                self.with_fan(
                    select,
                    VirtualFan {
                        duty_cycle,
                        rpm: self.fan(select).rpm,
                        mode: self.fan(select).mode,
                    },
                ),
                Ok(()),
            )
        }
    }

    /// Outcome of setting an RPM: the state that follows, and the result of
    /// the operation.
    pub open spec fn set_rpm(self, select: FanSelect, rpm: FanRpm) -> (
        DriverState,
        Result<(), Error>,
    ) {
        if !self.selects(select) {
            (self, Err(Error::InvalidFan))
        } else if rpm > self.rpm_maximum {
            (self, Err(Error::RpmOutOfRange))
        } else {
            (
                self.with_fan(
                    select,
                    VirtualFan {
                        duty_cycle: self.fan(select).duty_cycle,
                        rpm,
                        mode: self.fan(select).mode,
                    },
                ),
                Ok(()),
            )
        }
    }

    /// Outcome of applying a control: the value is set as by
    /// `set_duty_cycle` or `set_rpm`, and where that succeeds the control
    /// becomes the fan's mode.
    pub open spec fn set_mode(self, select: FanSelect, mode: FanControl) -> (
        DriverState,
        Result<(), Error>,
    ) {
        let (set, result) = match mode {
            FanControl::DutyCycle(duty_cycle) => self.set_duty_cycle(select, duty_cycle),
            FanControl::Rpm(rpm) => self.set_rpm(select, rpm),
        };
        if result is Ok {
            (
                set.with_fan(
                    select,
                    VirtualFan {
                        duty_cycle: set.fan(select).duty_cycle,
                        rpm: set.fan(select).rpm,
                        mode,
                    },
                ),
                Ok(()),
            )
        } else {
            (self, result)
        }
    }

    /// The state with another RPM ceiling. The fans keep the RPM they have.
    pub open spec fn set_maximum_rpm(self, rpm: FanRpm) -> DriverState {
        DriverState { fans: self.fans, rpm_maximum: rpm }
    }

    /// A duty cycle of at most 100 that is set on a fan is the duty cycle
    /// read from it afterwards. One above 100 is refused as out of range,
    /// and the fan's duty cycle reads as before.
    pub proof fn lemma_set_duty_cycle_then_get(self, select: FanSelect, duty_cycle: FanDutyCycle)
        requires
            self.selects(select),
        ensures
            duty_cycle <= 100 ==> self.set_duty_cycle(select, duty_cycle).1 is Ok
                && self.set_duty_cycle(select, duty_cycle).0.duty_cycle(select) == Ok::<
                FanDutyCycle,
                Error,
            >(duty_cycle),
            duty_cycle > 100 ==> self.set_duty_cycle(select, duty_cycle).1 == Err::<(), Error>(
                Error::DutyCycleOutOfRange,
            ) && self.set_duty_cycle(select, duty_cycle).0.duty_cycle(select) == self.duty_cycle(
                select,
            ),
    {
    }

    /// An RPM of at most the ceiling that is set on a fan is the RPM read
    /// from it afterwards. One above the ceiling is refused as out of range,
    /// and the fan's RPM reads as before.
    pub proof fn lemma_set_rpm_then_get(self, select: FanSelect, rpm: FanRpm)
        requires
            self.selects(select),
        ensures
            rpm <= self.rpm_maximum ==> self.set_rpm(select, rpm).1 is Ok && self.set_rpm(
                select,
                rpm,
            ).0.rpm(select) == Ok::<FanRpm, Error>(rpm),
            rpm > self.rpm_maximum ==> self.set_rpm(select, rpm).1 == Err::<(), Error>(
                Error::RpmOutOfRange,
            ) && self.set_rpm(select, rpm).0.rpm(select) == self.rpm(select),
    {
    }

    /// A control that was applied to a fan is the mode read from it
    /// afterwards, and the value that it holds is the duty cycle or the RPM
    /// read from the fan. A control that was refused leaves the state as it
    /// was.
    pub proof fn lemma_set_mode_then_get(self, select: FanSelect, mode: FanControl)
        ensures
            self.set_mode(select, mode).1 is Ok ==> self.set_mode(select, mode).0.mode(select)
                == Ok::<FanControl, Error>(mode),
            self.set_mode(select, mode).1 is Ok ==> match mode {
                FanControl::DutyCycle(duty_cycle) => self.set_mode(select, mode).0.duty_cycle(
                    select,
                ) == Ok::<FanDutyCycle, Error>(duty_cycle),
                FanControl::Rpm(rpm) => self.set_mode(select, mode).0.rpm(select) == Ok::<
                    FanRpm,
                    Error,
                >(rpm),
            },
            self.set_mode(select, mode).1 is Err ==> self.set_mode(select, mode).0 == self,
    {
    }

    /// An operation on one fan changes no other fan, nor the number of fans,
    /// nor the ceiling.
    pub proof fn lemma_other_fans_keep_state(
        self,
        select: FanSelect,
        other: FanSelect,
        duty_cycle: FanDutyCycle,
        rpm: FanRpm,
        mode: FanControl,
    )
        requires
            self.selects(other),
            other != select,
        ensures
            self.set_duty_cycle(select, duty_cycle).0.fan(other) == self.fan(other),
            self.set_rpm(select, rpm).0.fan(other) == self.fan(other),
            self.set_mode(select, mode).0.fan(other) == self.fan(other),
            self.set_duty_cycle(select, duty_cycle).0.fans.len() == self.fans.len(),
            self.set_rpm(select, rpm).0.fans.len() == self.fans.len(),
            self.set_mode(select, mode).0.fans.len() == self.fans.len(),
            self.set_duty_cycle(select, duty_cycle).0.rpm_maximum == self.rpm_maximum,
            self.set_rpm(select, rpm).0.rpm_maximum == self.rpm_maximum,
            self.set_mode(select, mode).0.rpm_maximum == self.rpm_maximum,
    {
    }

    /// Every operation leaves a well-formed state well formed, and a new
    /// driver is well formed: no fan ever holds a duty cycle above 100.
    pub proof fn lemma_wf_is_kept(
        self,
        select: FanSelect,
        duty_cycle: FanDutyCycle,
        rpm: FanRpm,
        mode: FanControl,
        count: nat,
    )
        requires
            self.wf(),
        ensures
            DriverState::initial(count).wf(),
            self.set_duty_cycle(select, duty_cycle).0.wf(),
            self.set_rpm(select, rpm).0.wf(),
            self.set_mode(select, mode).0.wf(),
            self.set_maximum_rpm(rpm).wf(),
    {
    }

    /// A new ceiling decides what is accepted from then on, and changes no
    /// RPM that a fan already has, even one above it.
    pub proof fn lemma_set_maximum_rpm_keeps_fans(self, select: FanSelect, rpm: FanRpm)
        ensures
            self.set_maximum_rpm(rpm).rpm_maximum == rpm,
            self.set_maximum_rpm(rpm).rpm(select) == self.rpm(select),
            self.set_maximum_rpm(rpm).fans == self.fans,
    {
    }
}

/// A set of `N` simulated fans.
#[derive(Clone, Copy, Debug)]
pub struct VirtualFanDriver<const N: usize> {
    /// List of virtual fans
    fan_list: [VirtualFan; N],
    /// Maximum RPM value that a virtual fan can reach
    rpm_maximum: FanRpm,
}

impl<const N: usize> View for VirtualFanDriver<N> {
    type V = DriverState;

    closed spec fn view(&self) -> DriverState {
        DriverState { fans: self.fan_list@, rpm_maximum: self.rpm_maximum }
    }
}

impl<const N: usize> Default for VirtualFanDriver<N> {
    /// A driver whose fans all run at a duty cycle of 50 percent, with an
    /// RPM of 500 and a ceiling of 2000.
    fn default() -> (driver: Self)
        ensures
            driver@ == DriverState::initial(N as nat),
            driver@.wf(),
    {
        let fan = VirtualFan::default();
        let driver = VirtualFanDriver { fan_list: [fan;N], rpm_maximum: DEFAULT_RPM_MAXIMUM };
        assert(driver@.fans =~= DriverState::initial(N as nat).fans);
        driver
    }
}

impl<const N: usize> VirtualFanDriver<N> {
    #[verifier::type_invariant]
    spec fn inv(self) -> bool {
        forall|i: int| 0 <= i < N ==> (#[trigger] self.fan_list[i]).wf()
    }

    /// A driver has `N` fans, neither more nor fewer.
    pub proof fn lemma_fan_count(driver: Self)
        ensures
            driver@.fans.len() == N,
    {
    }

    /// Checks that `select` names a fan of the driver: one of 1 to `N`.
    pub fn valid_fan(&self, select: FanSelect) -> (result: Result<(), Error>)
        ensures
            result == self@.valid_fan(select),
            result is Ok <==> 1 <= select.0 <= N,
            result is Err ==> result == Err::<(), Error>(Error::InvalidFan),
            self@.wf(),
    {
        proof {
            use_type_invariant(self);
        }
        if select.0 != 0 && select.0 as usize <= N {
            Ok(())
        } else {
            Err(Error::InvalidFan)
        }
    }

    /// Returns the number of fans. A driver of more than 65535 fans reports
    /// the low 16 bits of their number.
    pub fn count(&self) -> (count: u16)
        ensures
            N <= u16::MAX ==> count == N,
            count == N % 0x1_0000,
    {
        let fans: usize = N;
        assert(fans as u16 == fans % 0x1_0000) by (bit_vector);
        #[verifier::truncate]
        (fans as u16)
    }

    /// Returns the fan's duty cycle, which is at most 100.
    pub fn duty_cycle(&mut self, select: FanSelect) -> (result: Result<FanDutyCycle, Error>)
        ensures
            *final(self) == *old(self),
            result == old(self)@.duty_cycle(select),
            result matches Ok(duty_cycle) ==> duty_cycle <= DUTY_CYCLE_MAXIMUM,
    {
        proof {
            use_type_invariant(&*self);
        }
        match self.valid_fan(select) {
            Ok(()) => Ok(self.fan_list[select.0 as usize - 1].duty_cycle),
            Err(error) => Err(error),
        }
    }

    /// Sets the fan's duty cycle, which may be at most 100. The fan's RPM
    /// and mode stay as they are.
    pub fn set_duty_cycle(&mut self, select: FanSelect, duty_cycle: FanDutyCycle) -> (result:
        Result<(), Error>)
        ensures
            (final(self)@, result) == old(self)@.set_duty_cycle(select, duty_cycle),
            result is Ok <==> 1 <= select.0 <= N && duty_cycle <= DUTY_CYCLE_MAXIMUM,
            result is Err ==> *final(self) == *old(self),
            final(self)@.wf(),
    {
        proof {
            use_type_invariant(&*self);
        }
        match self.valid_fan(select) {
            Ok(()) => {},
            Err(error) => {
                return Err(error);
            },
        }
        if duty_cycle > DUTY_CYCLE_MAXIMUM {
            return Err(Error::DutyCycleOutOfRange);
        }
        self.fan_list[select.0 as usize - 1].duty_cycle = duty_cycle;
        Ok(())
    }

    /// Returns the fan's RPM.
    pub fn rpm(&mut self, select: FanSelect) -> (result: Result<FanRpm, Error>)
        ensures
            *final(self) == *old(self),
            result == old(self)@.rpm(select),
    {
        match self.valid_fan(select) {
            Ok(()) => Ok(self.fan_list[select.0 as usize - 1].rpm),
            Err(error) => Err(error),
        }
    }

    /// Sets the fan's RPM, which may be at most the driver's ceiling. The
    /// fan's duty cycle and mode stay as they are.
    pub fn set_rpm(&mut self, select: FanSelect, rpm: FanRpm) -> (result: Result<(), Error>)
        ensures
            (final(self)@, result) == old(self)@.set_rpm(select, rpm),
            result is Ok <==> 1 <= select.0 <= N && rpm <= old(self)@.rpm_maximum,
            result is Err ==> *final(self) == *old(self),
            final(self)@.wf(),
    {
        proof {
            use_type_invariant(&*self);
        }
        match self.valid_fan(select) {
            Ok(()) => {},
            Err(error) => {
                return Err(error);
            },
        }
        if rpm > self.rpm_maximum {
            return Err(Error::RpmOutOfRange);
        }
        self.fan_list[select.0 as usize - 1].rpm = rpm;
        Ok(())
    }

    /// Returns the fan's duty cycle and RPM.
    pub fn report(&mut self, select: FanSelect) -> (result: Result<
        (FanDutyCycle, FanRpm),
        Error,
    >)
        ensures
            *final(self) == *old(self),
            result == old(self)@.report(select),
            result matches Ok(report) ==> report.0 <= DUTY_CYCLE_MAXIMUM,
    {
        proof {
            use_type_invariant(&*self);
        }
        match self.valid_fan(select) {
            Ok(()) => Ok(
                (
                    self.fan_list[select.0 as usize - 1].duty_cycle,
                    self.fan_list[select.0 as usize - 1].rpm,
                ),
            ),
            Err(error) => Err(error),
        }
    }

    /// Returns the control that was last applied to the fan.
    pub fn mode(&mut self, select: FanSelect) -> (result: Result<FanControl, Error>)
        ensures
            *final(self) == *old(self),
            result == old(self)@.mode(select),
            result matches Ok(FanControl::DutyCycle(duty_cycle)) ==> duty_cycle
                <= DUTY_CYCLE_MAXIMUM,
    {
        proof {
            use_type_invariant(&*self);
        }
        match self.valid_fan(select) {
            Ok(()) => Ok(self.fan_list[select.0 as usize - 1].mode),
            Err(error) => Err(error),
        }
    }

    /// Applies a control to the fan: sets the duty cycle or the RPM that it
    /// holds, and records it as the fan's mode. A control whose value is out
    /// of range is refused, and the fan keeps the mode it had.
    pub fn set_mode(&mut self, select: FanSelect, mode: FanControl) -> (result: Result<(), Error>)
        ensures
            (final(self)@, result) == old(self)@.set_mode(select, mode),
            result is Ok <==> 1 <= select.0 <= N && match mode {
                FanControl::DutyCycle(duty_cycle) => duty_cycle <= DUTY_CYCLE_MAXIMUM,
                FanControl::Rpm(rpm) => rpm <= old(self)@.rpm_maximum,
            },
            result is Ok ==> final(self)@.mode(select) == Ok::<FanControl, Error>(mode),
            result is Err ==> *final(self) == *old(self),
            final(self)@.wf(),
    {
        proof {
            use_type_invariant(&*self);
        }
        match self.valid_fan(select) {
            Ok(()) => {},
            Err(error) => {
                return Err(error);
            },
        }
        let set = match mode {
            FanControl::DutyCycle(duty_cycle) => self.set_duty_cycle(select, duty_cycle),
            FanControl::Rpm(rpm) => self.set_rpm(select, rpm),
        };
        match set {
            Ok(()) => {},
            Err(error) => {
                return Err(error);
            },
        }
        self.fan_list[select.0 as usize - 1].mode = mode;
        assert(self@.fans =~= old(self)@.set_mode(select, mode).0.fans);
        Ok(())
    }

    /// Returns the RPM ceiling.
    pub fn maximum_rpm(&mut self) -> (rpm: FanRpm)
        ensures
            *final(self) == *old(self),
            rpm == old(self)@.rpm_maximum,
    {
        self.rpm_maximum
    }

    /// Sets the RPM ceiling. Fans keep the RPM they have, also where it is
    /// above the new ceiling.
    pub fn set_maximum_rpm(&mut self, rpm: FanRpm)
        ensures
            final(self)@ == old(self)@.set_maximum_rpm(rpm),
            final(self)@.wf(),
    {
        proof {
            use_type_invariant(&*self);
        }
        self.rpm_maximum = rpm;
    }

    /// Returns what there is to report of each fan, fan 1 first: its
    /// number and its state.
    pub fn dump_info(&self) -> (info: Vec<(usize, VirtualFan)>)
        ensures
            info@.len() == N,
            forall|i: int| 0 <= i < N ==> (#[trigger] info@[i]) == ((i + 1) as usize, self@.fans[i]),
    {
        let mut info: Vec<(usize, VirtualFan)> = Vec::new();
        let mut i: usize = 0;
        while i < N
            invariant
                i <= N,
                info@.len() == i,
                forall|j: int|
                    0 <= j < i ==> (#[trigger] info@[j]) == ((j + 1) as usize, self.fan_list@[j]),
            decreases N - i,
        {
            info.push((i + 1, self.fan_list[i]));
            i += 1;
        }
        info
    }
}

} // verus!
