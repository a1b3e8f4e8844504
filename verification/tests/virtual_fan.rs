use fans::virtual_fan::{
    Error, VirtualFan, VirtualFanDriver, DEFAULT_DUTY_CYCLE, DEFAULT_RPM, DEFAULT_RPM_MAXIMUM,
    DUTY_CYCLE_MAXIMUM,
};
use fans::{FanControl, FanSelect};

#[test]
fn valid_fan() {
    let quad_driver: VirtualFanDriver<4> = VirtualFanDriver::default();

    let select = FanSelect(0);
    assert!(quad_driver.valid_fan(select).is_err());

    for i in 1..=4 {
        let select = FanSelect(i);
        assert!(quad_driver.valid_fan(select).is_ok());
    }

    let select = FanSelect(5);
    assert!(quad_driver.valid_fan(select).is_err());
}

#[test]
fn duty_cycle() {
    let mut quad_driver: VirtualFanDriver<4> = VirtualFanDriver::default();

    for duty in 0..=100_u8 {
        for fan in 1..=4 {
            let select = FanSelect(fan);
            quad_driver.set_duty_cycle(select, duty).unwrap();
            assert_eq!(quad_driver.duty_cycle(select).unwrap(), duty);
        }
    }

    assert!(quad_driver.set_duty_cycle(FanSelect(1), 101).is_err());
}

#[test]
fn rpm() {
    let mut quad_driver: VirtualFanDriver<4> = VirtualFanDriver::default();

    for rpm in 0..=quad_driver.maximum_rpm() {
        for fan in 1..=4 {
            let select = FanSelect(fan);
            quad_driver.set_rpm(select, rpm).unwrap();
            assert_eq!(quad_driver.rpm(select).unwrap(), rpm);
        }
    }

    assert!(quad_driver
        .set_rpm(FanSelect(1), DEFAULT_RPM_MAXIMUM + 1)
        .is_err());
}

#[test]
fn maximum_rpm() {
    let mut quad_driver: VirtualFanDriver<4> = VirtualFanDriver::default();

    assert_eq!(quad_driver.maximum_rpm(), DEFAULT_RPM_MAXIMUM);

    quad_driver.set_maximum_rpm(2_500);
    assert_eq!(quad_driver.maximum_rpm(), 2_500);
}

#[test]
fn mode() {
    let mut quad_driver: VirtualFanDriver<4> = VirtualFanDriver::default();

    for fan in 1..=4 {
        let select = FanSelect(fan);
        assert_eq!(
            quad_driver.mode(select).unwrap(),
            FanControl::DutyCycle(DEFAULT_DUTY_CYCLE)
        );
    }

    assert!(quad_driver
        .set_mode(FanSelect(1), FanControl::DutyCycle(101))
        .is_err());

    for fan in 1..=4 {
        let select = FanSelect(fan);
        quad_driver
            .set_mode(select, FanControl::Rpm(DEFAULT_RPM))
            .unwrap();
        assert_eq!(
            quad_driver.mode(select).unwrap(),
            FanControl::Rpm(DEFAULT_RPM)
        );
    }
}

#[test]
fn defaults() {
    assert_eq!(DEFAULT_DUTY_CYCLE, 50);
    assert_eq!(DEFAULT_RPM, 500);
    assert_eq!(DEFAULT_RPM_MAXIMUM, 2000);
    assert_eq!(DUTY_CYCLE_MAXIMUM, 100);
    assert_eq!(
        VirtualFan::default(),
        VirtualFan {
            duty_cycle: 50,
            rpm: 500,
            mode: FanControl::DutyCycle(50),
        }
    );
    let mut driver: VirtualFanDriver<3> = VirtualFanDriver::default();
    assert_eq!(driver.maximum_rpm(), 2000);
    for fan in 1..=3 {
        assert_eq!(driver.duty_cycle(FanSelect(fan)), Ok(50));
        assert_eq!(driver.rpm(FanSelect(fan)), Ok(500));
        assert_eq!(driver.report(FanSelect(fan)), Ok((50, 500)));
        assert_eq!(driver.mode(FanSelect(fan)), Ok(FanControl::DutyCycle(50)));
    }
}

#[test]
fn count_is_the_number_of_fans() {
    assert_eq!(VirtualFanDriver::<0>::default().count(), 0);
    assert_eq!(VirtualFanDriver::<1>::default().count(), 1);
    assert_eq!(VirtualFanDriver::<4>::default().count(), 4);
    assert_eq!(VirtualFanDriver::<300>::default().count(), 300);
}

#[test]
fn valid_fan_is_one_to_count() {
    let driver: VirtualFanDriver<4> = VirtualFanDriver::default();
    for select in 0..=u16::MAX {
        let expected = if (1..=4).contains(&select) {
            Ok(())
        } else {
            Err(Error::InvalidFan)
        };
        assert_eq!(driver.valid_fan(FanSelect(select)), expected);
    }
    let empty: VirtualFanDriver<0> = VirtualFanDriver::default();
    assert_eq!(empty.valid_fan(FanSelect(0)), Err(Error::InvalidFan));
    assert_eq!(empty.valid_fan(FanSelect(1)), Err(Error::InvalidFan));
}

#[test]
fn every_operation_checks_the_fan_first() {
    let mut driver: VirtualFanDriver<4> = VirtualFanDriver::default();
    for select in [FanSelect(0), FanSelect(5), FanSelect(u16::MAX)] {
        assert_eq!(driver.duty_cycle(select), Err(Error::InvalidFan));
        assert_eq!(driver.rpm(select), Err(Error::InvalidFan));
        assert_eq!(driver.report(select), Err(Error::InvalidFan));
        assert_eq!(driver.mode(select), Err(Error::InvalidFan));
        assert_eq!(driver.set_duty_cycle(select, 10), Err(Error::InvalidFan));
        assert_eq!(driver.set_duty_cycle(select, 200), Err(Error::InvalidFan));
        assert_eq!(driver.set_rpm(select, 10), Err(Error::InvalidFan));
        assert_eq!(driver.set_rpm(select, 60000), Err(Error::InvalidFan));
        assert_eq!(
            driver.set_mode(select, FanControl::DutyCycle(200)),
            Err(Error::InvalidFan)
        );
        assert_eq!(
            driver.set_mode(select, FanControl::Rpm(60000)),
            Err(Error::InvalidFan)
        );
    }
}

#[test]
fn duty_cycle_above_hundred_is_refused_and_changes_nothing() {
    let mut driver: VirtualFanDriver<4> = VirtualFanDriver::default();
    driver.set_duty_cycle(FanSelect(2), 37).unwrap();
    for duty in 101..=255_u8 {
        assert_eq!(
            driver.set_duty_cycle(FanSelect(2), duty),
            Err(Error::DutyCycleOutOfRange)
        );
        assert_eq!(driver.duty_cycle(FanSelect(2)), Ok(37));
    }
    assert_eq!(driver.set_duty_cycle(FanSelect(2), 100), Ok(()));
    assert_eq!(driver.duty_cycle(FanSelect(2)), Ok(100));
    assert_eq!(driver.set_duty_cycle(FanSelect(2), 0), Ok(()));
    assert_eq!(driver.duty_cycle(FanSelect(2)), Ok(0));
}

#[test]
fn rpm_above_the_ceiling_is_refused_and_changes_nothing() {
    let mut driver: VirtualFanDriver<4> = VirtualFanDriver::default();
    driver.set_rpm(FanSelect(3), 1234).unwrap();
    for rpm in [2001_u16, 2002, 2500, 30000, u16::MAX] {
        assert_eq!(
            driver.set_rpm(FanSelect(3), rpm),
            Err(Error::RpmOutOfRange)
        );
        assert_eq!(driver.rpm(FanSelect(3)), Ok(1234));
    }
    assert_eq!(driver.set_rpm(FanSelect(3), 2000), Ok(()));
    assert_eq!(driver.rpm(FanSelect(3)), Ok(2000));
}

#[test]
fn raised_ceiling_admits_higher_rpm() {
    let mut driver: VirtualFanDriver<4> = VirtualFanDriver::default();
    driver.set_maximum_rpm(2500);
    assert!(driver.set_rpm(FanSelect(1), 2501).is_err());
    assert_eq!(driver.set_rpm(FanSelect(1), 2501), Err(Error::RpmOutOfRange));
    assert_eq!(driver.rpm(FanSelect(1)), Ok(500));
    assert!(driver.set_rpm(FanSelect(1), 2500).is_ok());
    assert_eq!(driver.rpm(FanSelect(1)), Ok(2500));
}

#[test]
fn lowered_ceiling_does_not_clamp() {
    let mut driver: VirtualFanDriver<2> = VirtualFanDriver::default();
    driver.set_rpm(FanSelect(1), 1800).unwrap();
    driver.set_maximum_rpm(1000);
    assert_eq!(driver.maximum_rpm(), 1000);
    assert_eq!(driver.rpm(FanSelect(1)), Ok(1800));
    assert_eq!(driver.set_rpm(FanSelect(1), 1001), Err(Error::RpmOutOfRange));
    assert_eq!(driver.set_rpm(FanSelect(1), 1000), Ok(()));
    driver.set_maximum_rpm(0);
    assert_eq!(driver.set_rpm(FanSelect(2), 1), Err(Error::RpmOutOfRange));
    assert_eq!(driver.set_rpm(FanSelect(2), 0), Ok(()));
}

#[test]
fn mode_is_the_last_control_applied() {
    let mut driver: VirtualFanDriver<4> = VirtualFanDriver::default();
    driver.set_mode(FanSelect(2), FanControl::Rpm(500)).unwrap();
    assert_eq!(driver.mode(FanSelect(2)), Ok(FanControl::Rpm(500)));
    driver
        .set_mode(FanSelect(2), FanControl::DutyCycle(80))
        .unwrap();
    assert_eq!(driver.mode(FanSelect(2)), Ok(FanControl::DutyCycle(80)));
    assert_eq!(driver.report(FanSelect(2)), Ok((80, 500)));
    assert_eq!(driver.mode(FanSelect(1)), Ok(FanControl::DutyCycle(50)));
}

#[test]
fn set_mode_sets_the_value_and_keeps_the_other() {
    let mut driver: VirtualFanDriver<4> = VirtualFanDriver::default();
    driver.set_mode(FanSelect(4), FanControl::Rpm(1500)).unwrap();
    assert_eq!(driver.report(FanSelect(4)), Ok((50, 1500)));
    driver
        .set_mode(FanSelect(4), FanControl::DutyCycle(20))
        .unwrap();
    assert_eq!(driver.report(FanSelect(4)), Ok((20, 1500)));
    for fan in 1..=3 {
        assert_eq!(driver.report(FanSelect(fan)), Ok((50, 500)));
    }
}

#[test]
fn set_mode_out_of_range_names_the_value_and_changes_nothing() {
    let mut driver: VirtualFanDriver<4> = VirtualFanDriver::default();
    driver.set_mode(FanSelect(1), FanControl::Rpm(700)).unwrap();
    assert_eq!(
        driver.set_mode(FanSelect(1), FanControl::DutyCycle(101)),
        Err(Error::DutyCycleOutOfRange)
    );
    // An RPM above the ceiling is reported as an RPM out of range, not as a
    // duty cycle out of range.
    assert_eq!(
        driver.set_mode(FanSelect(1), FanControl::Rpm(2001)),
        Err(Error::RpmOutOfRange)
    );
    assert_ne!(
        driver.set_mode(FanSelect(1), FanControl::Rpm(2001)),
        Err(Error::DutyCycleOutOfRange)
    );
    assert_eq!(driver.mode(FanSelect(1)), Ok(FanControl::Rpm(700)));
    assert_eq!(driver.report(FanSelect(1)), Ok((50, 700)));
}

#[test]
fn setters_leave_the_mode() {
    let mut driver: VirtualFanDriver<1> = VirtualFanDriver::default();
    driver.set_duty_cycle(FanSelect(1), 99).unwrap();
    driver.set_rpm(FanSelect(1), 42).unwrap();
    assert_eq!(driver.mode(FanSelect(1)), Ok(FanControl::DutyCycle(50)));
    assert_eq!(driver.report(FanSelect(1)), Ok((99, 42)));
}

#[test]
fn dump_info_lists_every_fan_in_order() {
    let mut driver: VirtualFanDriver<3> = VirtualFanDriver::default();
    driver.set_mode(FanSelect(2), FanControl::Rpm(900)).unwrap();
    driver.set_duty_cycle(FanSelect(3), 5).unwrap();
    let info = driver.dump_info();
    assert_eq!(
        info,
        vec![
            (
                1,
                VirtualFan {
                    duty_cycle: 50,
                    rpm: 500,
                    mode: FanControl::DutyCycle(50)
                }
            ),
            (
                2,
                VirtualFan {
                    duty_cycle: 50,
                    rpm: 900,
                    mode: FanControl::Rpm(900)
                }
            ),
            (
                3,
                VirtualFan {
                    duty_cycle: 5,
                    rpm: 500,
                    mode: FanControl::DutyCycle(50)
                }
            ),
        ]
    );
    assert!(VirtualFanDriver::<0>::default().dump_info().is_empty());
}

#[test]
fn driver_can_be_copied() {
    let mut driver: VirtualFanDriver<2> = VirtualFanDriver::default();
    let mut copy = driver;
    driver.set_rpm(FanSelect(1), 1).unwrap();
    assert_eq!(copy.rpm(FanSelect(1)), Ok(500));
    assert_eq!(driver.rpm(FanSelect(1)), Ok(1));
}
