//! The machines that the user has configured.

use std::path::PathBuf;
use vstd::prelude::*;
use crate::text::{chars_of, same_text};

verus! {

/// The settings of one machine: the name it announces itself under, the
/// code that opens its control channel, and where its slicer settings lie.
#[derive(Debug, PartialEq, Eq)]
pub struct MachineConfig {
    pub name: String,
    pub access_code: String,
    pub slicer_config: PathBuf,
}

/// A `MachineConfig` as a mathematical value.
pub struct MachineConfigView {
    pub name: Seq<char>,
    pub access_code: Seq<char>,
    pub slicer_config: PathBuf,
}

impl View for MachineConfig {
    type V = MachineConfigView;

    open spec fn view(&self) -> MachineConfigView {
        MachineConfigView {
            name: self.name@,
            access_code: self.access_code@,
            slicer_config: self.slicer_config,
        }
    }
}

impl Clone for MachineConfig {
    fn clone(&self) -> (r: Self)
        ensures
            r@ == self@,
    {
        MachineConfig {
            name: self.name.clone(),
            access_code: self.access_code.clone(),
            slicer_config: self.slicer_config.clone(),
        }
    }
}

/// The configured machines, in the order in which they were given.
#[derive(Debug, PartialEq, Eq)]
pub struct BambuLabsConfig {
    pub machines: Vec<MachineConfig>,
}

impl View for BambuLabsConfig {
    type V = Seq<MachineConfigView>;

    open spec fn view(&self) -> Seq<MachineConfigView> {
        Seq::new(self.machines@.len(), |i: int| self.machines@[i]@)
    }
}

/// The first machine of that name, if there is one.
pub open spec fn machine_named(machines: Seq<MachineConfigView>, name: Seq<char>) -> Option<
    MachineConfigView,
>
    decreases machines.len(),
{
    if machines.len() == 0 {
        None
    } else if machines.first().name == name {
        Some(machines.first())
    } else {
        machine_named(machines.drop_first(), name)
    }
}

/// A machine is found exactly when one of that name is configured, and the
/// one found has that name.
pub proof fn lemma_machine_named(machines: Seq<MachineConfigView>, name: Seq<char>)
    ensures
        machine_named(machines, name) is Some <==> exists|i: int|
            0 <= i < machines.len() && #[trigger] machines[i].name == name,
        machine_named(machines, name) matches Some(m) ==> m.name == name && machines.contains(m),
    decreases machines.len(),
{
    if machines.len() > 0 && machines.first().name == name {
        assert(machines[0].name == name);
    } else if machines.len() > 0 {
        let rest = machines.drop_first();
        lemma_machine_named(rest, name);
        if machine_named(rest, name) is Some {
            let i = choose|i: int| 0 <= i < rest.len() && #[trigger] rest[i].name == name;
            assert(machines[i + 1].name == name);
            let found = machine_named(rest, name).unwrap();
            let j = choose|j: int| 0 <= j < rest.len() && rest[j] == found;
            assert(machines[j + 1] == found);
        }
        if exists|i: int| 0 <= i < machines.len() && #[trigger] machines[i].name == name {
            let i = choose|i: int| 0 <= i < machines.len() && #[trigger] machines[i].name == name;
            assert(rest[i - 1].name == name);
        }
    }
}

impl BambuLabsConfig {
    /// A configuration of these machines.
    pub fn new(machines: Vec<MachineConfig>) -> (config: Self)
        ensures
            config.machines == machines,
    {
        BambuLabsConfig { machines }
    }

    /// The settings of the machine that announces itself under `name`.
    pub fn get_machine_config(&self, name: &str) -> (r: Option<&MachineConfig>)
        ensures
            match r {
                Some(machine) => machine_named(self@, name@) == Some(machine@),
                None => machine_named(self@, name@) is None,
            },
    {
        let wanted = chars_of(name);
        let mut i: usize = 0;
        assert(self@.skip(0) == self@);
        while i < self.machines.len()
            invariant
                i <= self.machines.len(),
                wanted@ == name@,
                machine_named(self@, name@) == machine_named(self@.skip(i as int), name@),
            decreases self.machines.len() - i,
        {
            let machine = &self.machines[i];
            if same_text(chars_of(machine.name.as_str()).as_slice(), wanted.as_slice()) {
                return Some(machine);
            }
            assert(self@.skip(i as int).drop_first() == self@.skip(i + 1));
            i += 1;
        }
        None
    }
}

impl Clone for BambuLabsConfig {
    fn clone(&self) -> (r: Self)
        ensures
            r@ == self@,
    {
        let mut machines: Vec<MachineConfig> = Vec::new();
        let mut i: usize = 0;
        while i < self.machines.len()
            invariant
                i <= self.machines.len(),
                machines.len() == i,
                forall|k: int| 0 <= k < i ==> machines@[k]@ == self.machines@[k]@,
            decreases self.machines.len() - i,
        {
            machines.push(self.machines[i].clone());
            i += 1;
        }
        let r = BambuLabsConfig { machines };
        r
    }
}

} // verus!
