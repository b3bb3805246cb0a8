use vstd::prelude::*;

verus! {

/// Animated overlays of a radar building.
#[derive(Clone, Copy, Debug, PartialEq, Eq, Structural)]
pub enum RadarOverlayKind {
    FrontLight,
    SideLight,
    BoxSpinner,
    Dish,
}

/// Animated overlays of a repair building.
#[derive(Clone, Copy, Debug, PartialEq, Eq, Structural)]
pub enum RepairOverlayKind {
    TextBox,
    Bulb,
    SmokeStack,
    FrontLight,
    SideLight,
}

/// Animated overlays of the robot and vehicle factories.
#[derive(Clone, Copy, Debug, PartialEq, Eq, Structural)]
pub enum FactoryOverlayKind {
    RobotExhaust,
    RobotGreenBox,
    RobotSingleLight0,
    RobotSingleLight1,
    RobotSingleLight2,
    RobotDoubleLight,
    RobotBody,
    RobotSpin,
    VehicleExhaust,
    VehicleTank,
    VehicleVent,
    VehicleBulb,
    VehicleLight0,
    VehicleLight1,
    VehicleSpin,
}

} // verus!
