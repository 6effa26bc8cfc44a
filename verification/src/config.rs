//! Monitoring configuration: the sockets and cores to monitor, and a display
//! label for each core.

use vstd::prelude::*;
use vstd::string::StringExecFns;

verus! {

/// The character naming one decimal digit.
pub open spec fn digit_seq(d: int) -> Seq<char> {
    if d == 0 {
        "0"@
    } else if d == 1 {
        "1"@
    } else if d == 2 {
        "2"@
    } else if d == 3 {
        "3"@
    } else if d == 4 {
        "4"@
    } else if d == 5 {
        "5"@
    } else if d == 6 {
        "6"@
    } else if d == 7 {
        "7"@
    } else if d == 8 {
        "8"@
    } else {
        "9"@
    }
}

/// The decimal representation of a number, most significant digit first.
pub open spec fn dec_digits(n: int) -> Seq<char>
    decreases n,
{
    if n < 10 {
        digit_seq(n)
    } else {
        dec_digits(n / 10) + digit_seq(n % 10)
    }
}

/// A number in decimal.
pub fn u32_dec(n: u32) -> (r: String)
    ensures
        r@ == dec_digits(n as int),
    decreases n,
{
    if n < 10 {
        String::from_str(crate::unit_metrics::digit_str(n as usize))
    } else {
        u32_dec(n / 10).concat(crate::unit_metrics::digit_str((n % 10) as usize))
    }
}

/// The monitored sockets and cores, with one display label per core.
#[derive(Debug)]
pub struct ExportConfig {
    /// The monitored sockets.
    pub sockets: Vec<u32>,
    /// The monitored cores.
    pub cores: Vec<u32>,
    /// One `(core, label)` pair per monitored core, in core order.
    pub core_labels: Vec<(u32, String)>,
}

impl ExportConfig {
    /// One label per core, in core order.
    pub open spec fn wf(self) -> bool {
        &&& self.core_labels@.len() == self.cores@.len()
        &&& forall|i: int|
            0 <= i < self.cores@.len() ==> (#[trigger] self.core_labels@[i]).0 == self.cores@[i]
    }

    /// A configuration of the given sockets and cores, labelling each core
    /// by its number.
    pub fn new(sockets: Vec<u32>, cores: Vec<u32>) -> (r: ExportConfig)
        ensures
            r.wf(),
            r.sockets == sockets,
            r.cores == cores,
            forall|i: int|
                0 <= i < cores@.len() ==> (#[trigger] r.core_labels@[i]).1@ == "core_"@
                    + dec_digits(cores@[i] as int),
    {
        let mut core_labels: Vec<(u32, String)> = Vec::new();
        let mut i: usize = 0;
        while i < cores.len()
            invariant
                i <= cores@.len(),
                core_labels@.len() == i,
                forall|k: int|
                    0 <= k < i ==> (#[trigger] core_labels@[k]).0 == cores@[k]
                        && core_labels@[k].1@ == "core_"@ + dec_digits(cores@[k] as int),
            decreases cores@.len() - i,
        {
            let core = cores[i];
            let digits = u32_dec(core);
            let label = String::from_str("core_").concat(digits.as_str());
            core_labels.push((core, label));
            i = i + 1;
        }
        ExportConfig { sockets, cores, core_labels }
    }

    /// The label of one monitored core, or nothing for an unmonitored one.
    pub fn core_label(&self, core: u32) -> (r: Option<&String>)
        requires
            self.wf(),
        ensures
            r is Some <==> exists|i: int| 0 <= i < self.cores@.len() && self.cores@[i] == core,
    {
        let mut i: usize = 0;
        while i < self.core_labels.len()
            invariant
                self.wf(),
                i <= self.core_labels@.len(),
                forall|k: int| 0 <= k < i ==> (#[trigger] self.cores@[k]) != core,
            decreases self.core_labels@.len() - i,
        {
            if self.core_labels[i].0 == core {
                proof {
                    assert(0 <= i < self.cores@.len() && self.cores@[i as int] == core);
                }
                return Some(&self.core_labels[i].1);
            }
            i = i + 1;
        }
        None
    }
}

} // verus!
