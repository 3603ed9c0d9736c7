//! Which workers a configuration calls for.

use vstd::prelude::*;
use crate::config::OutputMode;

verus! {

/// What feeds the controller's inputs.
#[derive(Clone, Copy, Debug, PartialEq, Eq, Structural)]
pub enum DeviceKind {
    /// Nothing does.
    Absent,
    /// A physical device, polled on a thread of its own.
    Hardware,
    /// Brokenithm clients, served by the async service.
    Brokenithm,
}

/// The workers to start: each flag says whether that worker runs.
#[derive(Clone, Copy, Debug, PartialEq, Eq, Structural)]
pub struct WorkerPlan {
    /// The hardware polling worker.
    pub device: bool,
    /// The Brokenithm service.
    pub brokenithm: bool,
    /// The output worker.
    pub output: bool,
    /// The LED worker.
    pub led: bool,
}

/// The labels of the loop timers of a plan, in the order in which the
/// workers are built: `d` for the device, `o` for the output, `l` for the
/// LEDs. The Brokenithm service has no loop timer.
pub open spec fn timer_labels_of(plan: WorkerPlan) -> Seq<char> {
    (if plan.device { seq!['d'] } else { Seq::<char>::empty() })
        + (if plan.output { seq!['o'] } else { Seq::<char>::empty() })
        + (if plan.led { seq!['l'] } else { Seq::<char>::empty() })
}

impl WorkerPlan {
    /// Plans the workers of a configuration. At most one worker feeds the
    /// inputs: the hardware one or the Brokenithm service. The output worker
    /// runs unless the output is disabled, the LED worker where LEDs are on.
    pub fn for_modes(device: DeviceKind, output: &OutputMode, led_on: bool) -> (plan: WorkerPlan)
        ensures
            plan.device == (device == DeviceKind::Hardware),
            plan.brokenithm == (device == DeviceKind::Brokenithm),
            plan.output == !(*output is Disabled),
            plan.led == led_on,
            !(plan.device && plan.brokenithm),
    {
        let output_on = match output {
            OutputMode::Disabled => false,
            _ => true,
        };
        WorkerPlan {
            device: device == DeviceKind::Hardware,
            brokenithm: device == DeviceKind::Brokenithm,
            output: output_on,
            led: led_on,
        }
    }

    /// The labels of the plan's loop timers, in order.
    pub fn timer_labels(&self) -> (labels: Vec<char>)
        ensures
            labels@ == timer_labels_of(*self),
    {
        let mut labels: Vec<char> = Vec::new();
        if self.device {
            labels.push('d');
        }
        if self.output {
            labels.push('o');
        }
        if self.led {
            labels.push('l');
        }
        assert(labels@ =~= timer_labels_of(*self));
        labels
    }
}

} // verus!
