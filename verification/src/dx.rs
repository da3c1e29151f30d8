//! The decisions of setting up Direct3D 11 for desktop duplication: which
//! driver types are tried and in what order, which feature levels are asked
//! for, and how driver types and feature levels are named in the log.
use vstd::prelude::*;

verus! {

/// A Direct3D driver type (`D3D_DRIVER_TYPE`).
#[derive(Debug, Clone, Copy, PartialEq, Eq, Structural)]
pub enum DriverType {
    Unknown,
    Hardware,
    Reference,
    Null,
    Software,
    Warp,
}

/// The numeric value of a driver type in the Direct3D headers.
pub open spec fn spec_driver_type_code(driver_type: DriverType) -> i32 {
    match driver_type {
        DriverType::Unknown => 0,
        DriverType::Hardware => 1,
        DriverType::Reference => 2,
        DriverType::Null => 3,
        DriverType::Software => 4,
        DriverType::Warp => 5,
    }
}

/// The numeric value of a driver type in the Direct3D headers.
pub fn driver_type_code(driver_type: DriverType) -> (code: i32)
    ensures
        code == spec_driver_type_code(driver_type),
        spec_driver_type_name(code) == header_name(driver_type),
{
    match driver_type {
        DriverType::Unknown => 0,
        DriverType::Hardware => 1,
        DriverType::Reference => 2,
        DriverType::Null => 3,
        DriverType::Software => 4,
        DriverType::Warp => 5,
    }
}

/// The name that the Direct3D headers give each driver type.
pub open spec fn header_name(driver_type: DriverType) -> Seq<char> {
    match driver_type {
        DriverType::Unknown => "D3D_DRIVER_TYPE_UNKNOWN"@,
        DriverType::Hardware => "D3D_DRIVER_TYPE_HARDWARE"@,
        DriverType::Reference => "D3D_DRIVER_TYPE_REFERENCE"@,
        DriverType::Null => "D3D_DRIVER_TYPE_NULL"@,
        DriverType::Software => "D3D_DRIVER_TYPE_SOFTWARE"@,
        DriverType::Warp => "D3D_DRIVER_TYPE_WARP"@,
    }
}

/// The driver types tried, in order: the hardware driver, then the WARP
/// software rasterizer, then the reference driver.
pub open spec fn driver_order() -> Seq<DriverType> {
    seq![DriverType::Hardware, DriverType::Warp, DriverType::Reference]
}

/// How many driver types are tried.
pub const DRIVER_TYPE_COUNT: usize = 3;

/// The `n`-th driver type to try.
pub fn driver_to_try(n: usize) -> (d: DriverType)
    requires
        n < DRIVER_TYPE_COUNT,
    ensures
        d == driver_order()[n as int],
{
    if n == 0 {
        DriverType::Hardware
    } else if n == 1 {
        DriverType::Warp
    } else {
        DriverType::Reference
    }
}

/// The feature levels asked for, most capable first: 11.1, 11.0, 10.1 and
/// 10.0, by their numeric values in the Direct3D headers.
pub open spec fn feature_level_codes() -> Seq<i32> {
    seq![0xb100, 0xb000, 0xa100, 0xa000]
}

/// The feature levels asked for, by their numeric values.
pub fn requested_feature_levels() -> (levels: Vec<i32>)
    ensures
        levels@ == feature_level_codes(),
{
    let mut levels: Vec<i32> = Vec::new();
    levels.push(0xb100);
    levels.push(0xb000);
    levels.push(0xa100);
    levels.push(0xa000);
    assert(levels@ =~= feature_level_codes());
    levels
}

/// The name under which a driver type (by numeric value) is logged.
pub open spec fn spec_driver_type_name(code: i32) -> Seq<char> {
    if code == 0 {
        "D3D_DRIVER_TYPE_UNKNOWN"@
    } else if code == 1 {
        "D3D_DRIVER_TYPE_HARDWARE"@
    } else if code == 2 {
        "D3D_DRIVER_TYPE_REFERENCE"@
    } else if code == 3 {
        "D3D_DRIVER_TYPE_NULL"@
    } else if code == 4 {
        "D3D_DRIVER_TYPE_SOFTWARE"@
    } else if code == 5 {
        "D3D_DRIVER_TYPE_WARP"@
    } else {
        "Unknown"@
    }
}

/// The name under which a driver type (by numeric value) is logged.
pub fn driver_type_name(code: i32) -> (name: &'static str)
    ensures
        name@ == spec_driver_type_name(code),
{
    if code == 0 {
        "D3D_DRIVER_TYPE_UNKNOWN"
    } else if code == 1 {
        "D3D_DRIVER_TYPE_HARDWARE"
    } else if code == 2 {
        "D3D_DRIVER_TYPE_REFERENCE"
    } else if code == 3 {
        "D3D_DRIVER_TYPE_NULL"
    } else if code == 4 {
        "D3D_DRIVER_TYPE_SOFTWARE"
    } else if code == 5 {
        "D3D_DRIVER_TYPE_WARP"
    } else {
        "Unknown"
    }
}

/// The name under which a feature level (by numeric value) is logged.
pub open spec fn spec_feature_level_name(code: i32) -> Seq<char> {
    if code == 0xc200 {
        "D3D_FEATURE_LEVEL_12_2"@
    } else if code == 0xc100 {
        "D3D_FEATURE_LEVEL_12_1"@
    } else if code == 0xc000 {
        "D3D_FEATURE_LEVEL_12_0"@
    } else if code == 0xb100 {
        "D3D_FEATURE_LEVEL_11_1"@
    } else if code == 0xb000 {
        "D3D_FEATURE_LEVEL_11_0"@
    } else if code == 0xa100 {
        "D3D_FEATURE_LEVEL_10_1"@
    } else if code == 0xa000 {
        "D3D_FEATURE_LEVEL_10_0"@
    } else if code == 0x9300 {
        "D3D_FEATURE_LEVEL_9_3"@
    } else if code == 0x9200 {
        "D3D_FEATURE_LEVEL_9_2"@
    } else if code == 0x9100 {
        "D3D_FEATURE_LEVEL_9_1"@
    } else if code == 0x1000 {
        "D3D_FEATURE_LEVEL_1_0_CORE"@
    } else {
        "Unknown"@
    }
}

/// The name under which a feature level (by numeric value) is logged.
pub fn feature_level_name(code: i32) -> (name: &'static str)
    ensures
        name@ == spec_feature_level_name(code),
{
    if code == 0xc200 {
        "D3D_FEATURE_LEVEL_12_2"
    } else if code == 0xc100 {
        "D3D_FEATURE_LEVEL_12_1"
    } else if code == 0xc000 {
        "D3D_FEATURE_LEVEL_12_0"
    } else if code == 0xb100 {
        "D3D_FEATURE_LEVEL_11_1"
    } else if code == 0xb000 {
        "D3D_FEATURE_LEVEL_11_0"
    } else if code == 0xa100 {
        "D3D_FEATURE_LEVEL_10_1"
    } else if code == 0xa000 {
        "D3D_FEATURE_LEVEL_10_0"
    } else if code == 0x9300 {
        "D3D_FEATURE_LEVEL_9_3"
    } else if code == 0x9200 {
        "D3D_FEATURE_LEVEL_9_2"
    } else if code == 0x9100 {
        "D3D_FEATURE_LEVEL_9_1"
    } else if code == 0x1000 {
        "D3D_FEATURE_LEVEL_1_0_CORE"
    } else {
        "Unknown"
    }
}

/// The next thing to do in creating the device.
#[derive(Debug, Clone, Copy, PartialEq, Eq, Structural)]
pub enum DeviceCreationStep {
    /// Try to create the device with this driver type.
    Try(DriverType),
    /// The device was created with this driver type.
    Created(DriverType),
    /// Every driver type failed.
    Exhausted,
}

/// Where the creation of the device stands: how many driver types have
/// failed, and with which one (if any) the device was created.
pub struct DeviceCreation {
    failures: usize,
    created: Option<DriverType>,
}

impl View for DeviceCreation {
    type V = (nat, Option<DriverType>);

    closed spec fn view(&self) -> (nat, Option<DriverType>) {
        (self.failures as nat, self.created)
    }
}

/// The step that follows a state: the device once created; otherwise the
/// next driver type in order; otherwise nothing is left to try.
pub open spec fn spec_next_step(state: (nat, Option<DriverType>)) -> DeviceCreationStep {
    match state.1 {
        Some(d) => DeviceCreationStep::Created(d),
        None => if state.0 < DRIVER_TYPE_COUNT {
            DeviceCreationStep::Try(driver_order()[state.0 as int])
        } else {
            DeviceCreationStep::Exhausted
        },
    }
}

/// The state after feeding the outcomes of `attempts` (`true` for a created
/// device) one after the other, from the start.
pub open spec fn run_attempts(attempts: Seq<bool>) -> (nat, Option<DriverType>)
    decreases attempts.len(),
{
    if attempts.len() == 0 {
        (0, None)
    } else {
        let before = run_attempts(attempts.drop_last());
        if attempts.last() {
            (before.0, Some(driver_order()[before.0 as int]))
        } else {
            ((before.0 + 1) as nat, None)
        }
    }
}

impl DeviceCreation {
    #[verifier::type_invariant]
    closed spec fn at_most_every_driver(self) -> bool {
        &&& self.failures <= DRIVER_TYPE_COUNT
        &&& self.created is Some ==> self.failures < DRIVER_TYPE_COUNT
    }

    /// Nothing tried yet.
    pub fn new() -> (s: Self)
        ensures
            s@ == run_attempts(Seq::empty()),
    {
        DeviceCreation { failures: 0, created: None }
    }

    /// What to do next.
    pub fn next_step(&self) -> (step: DeviceCreationStep)
        ensures
            step == spec_next_step(self@),
    {
        proof {
            use_type_invariant(self);
        }
        match self.created {
            Some(d) => DeviceCreationStep::Created(d),
            None => if self.failures < DRIVER_TYPE_COUNT {
                DeviceCreationStep::Try(driver_to_try(self.failures))
            } else {
                DeviceCreationStep::Exhausted
            },
        }
    }

    /// Records whether the attempt with the driver type of `next_step`
    /// created the device.
    pub fn record_attempt(&mut self, created: bool)
        requires
            spec_next_step(old(self)@) is Try,
        ensures
            created ==> final(self)@ == (old(self)@.0, Some(driver_order()[old(self)@.0 as int])),
            !created ==> final(self)@ == ((old(self)@.0 + 1) as nat, None::<DriverType>),
    {
        proof {
            use_type_invariant(&*self);
        }
        if created {
            let d = driver_to_try(self.failures);
            self.created = Some(d);
        } else {
            self.failures = self.failures + 1;
        }
    }
}

/// The driver types are tried in their order, one at a time, and trying
/// stops at the first that creates the device: after the outcomes of
/// `failures` failed attempts and then a successful one, the device stands
/// created with the driver type in that position; after three failures
/// nothing is left to try.
pub proof fn law_first_working_driver_wins(failures: nat)
    requires
        failures < DRIVER_TYPE_COUNT,
    ensures
        spec_next_step(run_attempts(Seq::new(failures, |i: int| false))) == DeviceCreationStep::Try(
            driver_order()[failures as int],
        ),
        spec_next_step(run_attempts(Seq::new(failures, |i: int| false).push(true)))
            == DeviceCreationStep::Created(driver_order()[failures as int]),
        spec_next_step(run_attempts(Seq::new(DRIVER_TYPE_COUNT as nat, |i: int| false)))
            == DeviceCreationStep::Exhausted,
{
    lemma_failures_only(failures);
    lemma_failures_only(DRIVER_TYPE_COUNT as nat);
    assert(Seq::new(failures, |i: int| false).push(true).drop_last() =~= Seq::new(
        failures,
        |i: int| false,
    ));
}

proof fn lemma_failures_only(n: nat)
    ensures
        run_attempts(Seq::new(n, |i: int| false)) == (n, None::<DriverType>),
    decreases n,
{
    if n > 0 {
        lemma_failures_only((n - 1) as nat);
        assert(Seq::new(n, |i: int| false).drop_last() =~= Seq::new((n - 1) as nat, |i: int| false));
    }
}


/// The numeric value given to each driver type is the one the Direct3D
/// headers give it: logging the value names the same driver type, and the
/// hardware driver is 1, the reference driver 2 and WARP 5.
pub proof fn law_driver_type_code_is_header_value(driver_type: DriverType)
    ensures
        spec_driver_type_name(spec_driver_type_code(driver_type)) == header_name(driver_type),
        driver_type == DriverType::Hardware ==> spec_driver_type_code(driver_type) == 1,
        driver_type == DriverType::Reference ==> spec_driver_type_code(driver_type) == 2,
        driver_type == DriverType::Warp ==> spec_driver_type_code(driver_type) == 5,
{
    reveal_strlit("D3D_DRIVER_TYPE_UNKNOWN");
    reveal_strlit("D3D_DRIVER_TYPE_HARDWARE");
    reveal_strlit("D3D_DRIVER_TYPE_REFERENCE");
    reveal_strlit("D3D_DRIVER_TYPE_NULL");
    reveal_strlit("D3D_DRIVER_TYPE_SOFTWARE");
    reveal_strlit("D3D_DRIVER_TYPE_WARP");
}

} // verus!
