//! The catalog of display names the process can pose under: static
//! data with no algorithmic content. Applying a name to the running
//! process is the host shell's business.

use vstd::prelude::*;
use vstd::string::StringExecFns;

verus! {

/// One available disguise: the posed process name and a human-readable
/// description.
#[derive(Clone, Debug)]
pub struct ProcessDisguise {
    pub name: String,
    pub description: String,
}

impl ProcessDisguise {
    /// The fixed list of eight innocuous-looking process identities.
    pub fn get_available_disguises() -> (r: Vec<ProcessDisguise>)
        ensures
            r@.len() == 8,
            r@[0].name@ == "system_update"@ && r@[0].description@ == "System Update Service"@,
            r@[1].name@ == "chrome_helper"@ && r@[1].description@ == "Chrome Helper Process"@,
            r@[2].name@ == "runtime_broker"@ && r@[2].description@ == "Runtime Broker"@,
            r@[3].name@ == "software_reporter"@ && r@[3].description@ == "Software Reporter Tool"@,
            r@[4].name@ == "com.apple.WebKit"@ && r@[4].description@ == "WebKit Service"@,
            r@[5].name@ == "WindowServer"@ && r@[5].description@ == "Window Server Process"@,
            r@[6].name@ == "mdworker"@ && r@[6].description@ == "Metadata Server Worker"@,
            r@[7].name@ == "kernel_task"@ && r@[7].description@ == "Kernel Task"@,
    {
        let mut r: Vec<ProcessDisguise> = Vec::new();
        r.push(
            ProcessDisguise {
                name: String::from_str("system_update"),
                description: String::from_str("System Update Service"),
            },
        );
        r.push(
            ProcessDisguise {
                name: String::from_str("chrome_helper"),
                description: String::from_str("Chrome Helper Process"),
            },
        );
        r.push(
            ProcessDisguise {
                name: String::from_str("runtime_broker"),
                description: String::from_str("Runtime Broker"),
            },
        );
        r.push(
            ProcessDisguise {
                name: String::from_str("software_reporter"),
                description: String::from_str("Software Reporter Tool"),
            },
        );
        r.push(
            ProcessDisguise {
                name: String::from_str("com.apple.WebKit"),
                description: String::from_str("WebKit Service"),
            },
        );
        r.push(
            ProcessDisguise {
                name: String::from_str("WindowServer"),
                description: String::from_str("Window Server Process"),
            },
        );
        r.push(
            ProcessDisguise {
                name: String::from_str("mdworker"),
                description: String::from_str("Metadata Server Worker"),
            },
        );
        r.push(
            ProcessDisguise {
                name: String::from_str("kernel_task"),
                description: String::from_str("Kernel Task"),
            },
        );
        r
    }
}

} // verus!
