//! The driver factory: a registry from model names to driver constructors,
//! with the manifest of each model and the scanners that discover devices.
use vstd::prelude::*;
use vstd::string::*;
use crate::config::DeviceConfig;
use crate::driver::ManifestEntry;
use crate::emulator::{EmulatorView, PowerSupplyEmulator};
use crate::kd3005p::Kd3005pProtocol;
use crate::random::random_alphanumeric;
use crate::serial::{suggested_config, PortInfo, StandardDriver};
use crate::topics::str_eq;

verus! {

/// Length of the keys that a scan files its findings under.
pub const SCAN_KEY_LENGTH: usize = 10;

/// The constructors the factory can register.
#[derive(PartialEq, Eq, Structural, Clone, Copy, Debug)]
pub enum DriverModel {
    Emulator,
    Kd3005p,
    Standard,
}

/// Ways of discovering attached devices.
#[derive(PartialEq, Eq, Structural, Clone, Copy, Debug)]
pub enum ScannerKind {
    /// Enumerate the serial ports of the machine.
    SerialPorts,
}

/// A driver instance, one per variant of hardware.
pub enum Driver {
    Emulator(PowerSupplyEmulator),
    Kd3005p(Kd3005pProtocol),
    Standard(StandardDriver),
}

/// Whether `d` is what the constructor `m` builds from `c`.
pub open spec fn built_from(d: Driver, m: DriverModel, c: DeviceConfig) -> bool {
    match m {
        DriverModel::Emulator => d matches Driver::Emulator(e) && e.wf() && e@ == (EmulatorView {
            enabled: false,
            voltage: "0"@,
            current: "0"@,
            voltage_limits: c.voltage_limits,
            current_limits: c.current_limits,
        }),
        DriverModel::Kd3005p => d matches Driver::Kd3005p(k) && k.config == c,
        DriverModel::Standard => d matches Driver::Standard(s) && s.config == c,
    }
}

impl DriverModel {
    /// Builds the driver of this model for `config`.
    pub fn instantiate(self, config: DeviceConfig) -> (r: Driver)
        requires
            config.wf(),
        ensures
            built_from(r, self, config),
    {
        match self {
            DriverModel::Emulator => Driver::Emulator(PowerSupplyEmulator::new(&config)),
            DriverModel::Kd3005p => Driver::Kd3005p(Kd3005pProtocol::new(config)),
            DriverModel::Standard => Driver::Standard(StandardDriver::new(config)),
        }
    }
}

/// Failure to build a driver.
#[derive(Debug, Clone)]
pub enum FactoryError {
    /// No constructor is registered for this model.
    NoDriver(String),
}

/// The registry that a sequence of registrations builds: a later
/// registration of a model replaces an earlier one.
pub open spec fn registry_of(s: Seq<(String, DriverModel)>) -> Map<Seq<char>, DriverModel>
    decreases s.len(),
{
    if s.len() == 0 {
        Map::empty()
    } else {
        registry_of(s.drop_last()).insert(s.last().0@, s.last().1)
    }
}

proof fn lemma_registry_suffix(s: Seq<(String, DriverModel)>, i: int, k: Seq<char>)
    requires
        0 <= i <= s.len(),
        forall|j: int| i <= j < s.len() ==> (#[trigger] s[j]).0@ != k,
    ensures
        registry_of(s).contains_key(k) == registry_of(s.subrange(0, i)).contains_key(k),
        registry_of(s).contains_key(k) ==> registry_of(s)[k] == registry_of(s.subrange(0, i))[k],
    decreases s.len() - i,
{
    if i == s.len() {
        assert(s.subrange(0, i) =~= s);
    } else {
        let t = s.drop_last();
        assert(s.last() == s[s.len() - 1]);
        assert forall|j: int| i <= j < t.len() implies (#[trigger] t[j]).0@ != k by {
            assert(t[j] == s[j]);
        }
        lemma_registry_suffix(t, i, k);
        assert(t.subrange(0, i) =~= s.subrange(0, i));
    }
}

/// Whether `c` is the configuration that one of `ports` suggests.
pub open spec fn from_some_port(ports: Seq<PortInfo>, c: DeviceConfig) -> bool {
    exists|j: int| 0 <= j < ports.len() && suggested_config(ports[j], c)
}

/// The registry of driver constructors, their manifests and the scanners.
pub struct Factory {
    entries: Vec<(String, DriverModel)>,
    manifest: Vec<ManifestEntry>,
    scanners: Vec<ScannerKind>,
}

impl Factory {
    /// Model name to constructor.
    pub closed spec fn registry(&self) -> Map<Seq<char>, DriverModel> {
        registry_of(self.entries@)
    }

    pub closed spec fn scanner_list(&self) -> Seq<ScannerKind> {
        self.scanners@
    }

    pub closed spec fn manifest_list(&self) -> Seq<ManifestEntry> {
        self.manifest@
    }

    /// A factory with nothing registered.
    pub fn empty() -> (r: Factory)
        ensures
            r.registry() == Map::<Seq<char>, DriverModel>::empty(),
            r.scanner_list() == Seq::<ScannerKind>::empty(),
            r.manifest_list() == Seq::<ManifestEntry>::empty(),
    {
        Factory { entries: Vec::new(), manifest: Vec::new(), scanners: Vec::new() }
    }

    /// Registers the constructor `m` under `model`, replacing any earlier one.
    pub fn register_driver(&mut self, model: &str, m: DriverModel)
        ensures
            final(self).registry() == old(self).registry().insert(model@, m),
            final(self).scanner_list() == old(self).scanner_list(),
            final(self).manifest_list() == old(self).manifest_list(),
    {
        self.entries.push((model.to_owned(), m));
        assert(self.entries@.drop_last() =~= old(self).entries@);
    }

    /// The manifest entries, in the order of registration, for discovery
    /// tooling.
    pub fn manifest(&self) -> (r: &Vec<ManifestEntry>)
        ensures
            r@ == self.manifest_list(),
    {
        &self.manifest
    }

    /// Adds the manifest entry of a model.
    pub fn register_manifest(&mut self, entry: ManifestEntry)
        ensures
            final(self).registry() == old(self).registry(),
            final(self).scanner_list() == old(self).scanner_list(),
            final(self).manifest_list() == old(self).manifest_list().push(entry),
    {
        self.manifest.push(entry);
    }

    /// Adds a scanner.
    pub fn register_scanner(&mut self, s: ScannerKind)
        ensures
            final(self).registry() == old(self).registry(),
            final(self).scanner_list() == old(self).scanner_list().push(s),
            final(self).manifest_list() == old(self).manifest_list(),
    {
        self.scanners.push(s);
    }

    /// The factory with every built-in model: `emulator`, `kd3005p` and
    /// `standard`, the manifests of all three and the serial-port scanner.
    pub fn new() -> (r: Factory)
        ensures
            r.registry() == map![
                "emulator"@ => DriverModel::Emulator,
                "kd3005p"@ => DriverModel::Kd3005p,
                "standard"@ => DriverModel::Standard,
            ],
            r.scanner_list() == seq![ScannerKind::SerialPorts],
            r.manifest_list().len() == 3,
            r.manifest_list()[0].model@ == "emulator"@,
            r.manifest_list()[1].model@ == "kd3005p"@,
            r.manifest_list()[2].model@ == "standard"@,
    {
        let mut f = Factory::empty();
        f.register_driver("emulator", DriverModel::Emulator);
        f.register_manifest(PowerSupplyEmulator::manifest());
        f.register_driver("kd3005p", DriverModel::Kd3005p);
        f.register_manifest(Kd3005pProtocol::manifest());
        f.register_driver("standard", DriverModel::Standard);
        f.register_manifest(StandardDriver::manifest());
        f.register_scanner(ScannerKind::SerialPorts);
        assert(f.registry() =~= map![
            "emulator"@ => DriverModel::Emulator,
            "kd3005p"@ => DriverModel::Kd3005p,
            "standard"@ => DriverModel::Standard,
        ]);
        assert(f.scanner_list() =~= seq![ScannerKind::SerialPorts]);
        assert(f.manifest_list().len() == 3);
        f
    }

    /// The constructor registered under `model`, if any.
    pub fn lookup(&self, model: &str) -> (r: Option<DriverModel>)
        ensures
            r == (if self.registry().contains_key(model@) {
                Some(self.registry()[model@])
            } else {
                None
            }),
    {
        let ghost s = self.entries@;
        let mut i: usize = self.entries.len();
        while i > 0
            invariant
                s == self.entries@,
                i <= s.len(),
                forall|j: int| i <= j < s.len() ==> (#[trigger] s[j]).0@ != model@,
            decreases i,
        {
            i = i - 1;
            if str_eq(self.entries[i].0.as_str(), model) {
                proof {
                    lemma_registry_suffix(s, i + 1, model@);
                    assert(s.subrange(0, i + 1).drop_last() =~= s.subrange(0, i as int));
                }
                return Some(self.entries[i].1);
            }
        }
        proof {
            lemma_registry_suffix(s, 0, model@);
        }
        None
    }

    /// Builds the driver that `config.model` names, or reports that no
    /// constructor is registered under that name.
    pub fn instanciate_driver(&self, config: DeviceConfig) -> (r: Result<Driver, FactoryError>)
        requires
            config.wf(),
        ensures
            r is Ok <==> self.registry().contains_key(config.model@),
            r matches Ok(d) ==> built_from(d, self.registry()[config.model@], config),
            r matches Err(FactoryError::NoDriver(m)) ==> m@ == config.model@,
    {
        match self.lookup(config.model.as_str()) {
            Some(m) => Ok(m.instantiate(config)),
            None => Err(FactoryError::NoDriver(config.model)),
        }
    }

    /// Runs every scanner over the attached `ports` and files each finding
    /// whose model is registered under a fresh random key.
    pub fn scan(&self, ports: &Vec<PortInfo>) -> (r: Vec<(String, DeviceConfig)>)
        ensures
            forall|i: int| 0 <= i < r@.len() ==> self.registry().contains_key(
                (#[trigger] r@[i]).1.model@,
            ),
            forall|i: int| 0 <= i < r@.len() ==> (#[trigger] r@[i]).0@.len() == SCAN_KEY_LENGTH,
            forall|i: int| 0 <= i < r@.len() ==> from_some_port(ports@, (#[trigger] r@[i]).1),
            self.registry().contains_key("standard"@) ==> r@.len() == self.scanner_list().len()
                * ports@.len(),
    {
        let mut r: Vec<(String, DeviceConfig)> = Vec::new();
        let standard_known = self.lookup("standard").is_some();
        let mut s: usize = 0;
        while s < self.scanners.len()
            invariant
                s <= self.scanners@.len(),
                standard_known == self.registry().contains_key("standard"@),
                forall|i: int| 0 <= i < r@.len() ==> self.registry().contains_key(
                    (#[trigger] r@[i]).1.model@,
                ),
                forall|i: int| 0 <= i < r@.len() ==> (#[trigger] r@[i]).0@.len() == SCAN_KEY_LENGTH,
                forall|i: int| 0 <= i < r@.len() ==> from_some_port(ports@, (#[trigger] r@[i]).1),
                standard_known ==> r@.len() == s * ports@.len(),
            decreases self.scanners@.len() - s,
        {
            let found = match self.scanners[s] {
                ScannerKind::SerialPorts => StandardDriver::scan(ports),
            };
            let ghost base = r@.len();
            let mut k: usize = 0;
            while k < found.len()
                invariant
                    k <= found@.len(),
                    found@.len() == ports@.len(),
                    forall|i: int| 0 <= i < found@.len() ==> suggested_config(ports@[i], #[trigger] found@[i]),
                    standard_known == self.registry().contains_key("standard"@),
                    forall|i: int| 0 <= i < r@.len() ==> self.registry().contains_key(
                        (#[trigger] r@[i]).1.model@,
                    ),
                    forall|i: int| 0 <= i < r@.len() ==> (#[trigger] r@[i]).0@.len() == SCAN_KEY_LENGTH,
                    forall|i: int| 0 <= i < r@.len() ==> from_some_port(ports@, (#[trigger] r@[i]).1),
                    standard_known ==> r@.len() == base + k,
                    standard_known ==> base == s * ports@.len(),
                decreases found@.len() - k,
            {
                let c = found[k].duplicate();
                if self.lookup(c.model.as_str()).is_some() {
                    let key = random_alphanumeric(SCAN_KEY_LENGTH);
                    r.push((key, c));
                    proof {
                        let last = r@.len() - 1;
                        assert(suggested_config(ports@[k as int], r@[last].1));
                        assert(from_some_port(ports@, r@[last].1));
                    }
                }
                k = k + 1;
            }
            proof {
                let p = ports@.len();
                assert((s + 1) * p == s * p + p) by (nonlinear_arith);
            }
            s = s + 1;
        }
        r
    }
}

} // verus!
