//! Diagnostics that are no part of a driver: the scan of the bus for devices.

use vstd::prelude::*;
use crate::bus::Command;
use crate::error::BusError;

verus! {

/// Addresses run from 0 to 127: a scan probes that many.
pub const ADDRESS_COUNT: u8 = 128;

/// `found` names the addresses that acknowledged, each once and in rising
/// order, where `answers[a]` tells whether address `a` did.
pub open spec fn lists_acknowledged(found: Seq<u8>, answers: Seq<bool>) -> bool {
    &&& forall|i: int, j: int| 0 <= i < j < found.len() ==> found[i] < found[j]
    &&& forall|i: int| 0 <= i < found.len() ==> found[i] < answers.len() && answers[found[i] as int]
    &&& forall|a: int| 0 <= a < answers.len() && answers[a] ==> found.contains(a as u8)
}

/// The devices that `answers` tells of: the addresses that acknowledged.
pub open spec fn acknowledging(answers: Seq<bool>) -> Set<u8> {
    Set::new(|a: u8| a < answers.len() && answers[a as int])
}

/// A list of acknowledged addresses names every device once and nothing
/// else, so it is as long as there are devices.
pub proof fn lemma_list_names_devices(found: Seq<u8>, answers: Seq<bool>)
    requires
        answers.len() <= ADDRESS_COUNT,
        lists_acknowledged(found, answers),
    ensures
        found.no_duplicates(),
        found.to_set() == acknowledging(answers),
        found.len() == acknowledging(answers).len(),
{
    assert forall|a: u8| acknowledging(answers).contains(a) implies found.to_set().contains(a) by {
        assert(found.contains((a as int) as u8));
    }
    assert(found.to_set() =~= acknowledging(answers));
    found.unique_seq_to_set();
}

/// Two lists of acknowledged addresses agree up to `n` entries.
proof fn lemma_lists_agree_upto(first: Seq<u8>, second: Seq<u8>, answers: Seq<bool>, n: nat)
    requires
        answers.len() <= ADDRESS_COUNT,
        lists_acknowledged(first, answers),
        lists_acknowledged(second, answers),
        n <= first.len(),
        first.len() == second.len(),
    ensures
        forall|k: int| 0 <= k < n ==> first[k] == second[k],
    decreases n,
{
    if n > 0 {
        let i: int = (n - 1) as int;
        lemma_lists_agree_upto(first, second, answers, (n - 1) as nat);
        assert(second.contains((first[i] as int) as u8));
        let j: int = choose|j: int| 0 <= j < second.len() && second[j] == first[i];
        assert(j >= i);
        assert(first.contains((second[i] as int) as u8));
        let h: int = choose|h: int| 0 <= h < first.len() && first[h] == second[i];
        assert(h >= i);
    }
}

/// There is one list of acknowledged addresses for given answers, and no
/// other.
pub proof fn lemma_list_is_unique(first: Seq<u8>, second: Seq<u8>, answers: Seq<bool>)
    requires
        answers.len() <= ADDRESS_COUNT,
        lists_acknowledged(first, answers),
        lists_acknowledged(second, answers),
    ensures
        first == second,
{
    lemma_list_names_devices(first, answers);
    lemma_list_names_devices(second, answers);
    lemma_lists_agree_upto(first, second, answers, first.len());
    assert(first =~= second);
}

/// What a scan has to tell once it is over.
#[derive(Debug, PartialEq, Eq)]
pub struct ScanReport {
    /// How many devices answered.
    pub count: usize,
    /// Their addresses, lowest first.
    pub addresses: Vec<u8>,
}

/// A scan in progress. It holds the bus for as long as it runs, probes one
/// address after the other and remembers which of them acknowledged.
pub struct BusScanner<B> {
    i2c: B,
    next: u8,
    found: Vec<u8>,
    answers: Ghost<Seq<bool>>,
}

/// Starts a scan on the bus `i2c`. Nothing has been probed yet.
pub fn i2c_scanner<B>(i2c: B) -> (scanner: BusScanner<B>)
    ensures
        scanner.wf(),
        scanner.bus() == i2c,
        scanner.answers() == Seq::<bool>::empty(),
{
    BusScanner { i2c, next: 0, found: Vec::new(), answers: Ghost(Seq::empty()) }
}

impl<B> BusScanner<B> {
    /// The scanner is in step with its own record: it has an answer for every
    /// address below the next one, none beyond the last address, and its list
    /// of devices is the one those answers give.
    pub closed spec fn wf(&self) -> bool {
        &&& self.next <= ADDRESS_COUNT
        &&& self.answers@.len() == self.next
        &&& lists_acknowledged(self.found@, self.answers@)
    }

    /// The bus that the scan runs on.
    pub closed spec fn bus(&self) -> B {
        self.i2c
    }

    /// Whether each address probed so far acknowledged, by address.
    pub closed spec fn answers(&self) -> Seq<bool> {
        self.answers@
    }

    /// The devices found so far.
    pub closed spec fn found(&self) -> Seq<u8> {
        self.found@
    }

    /// A scanner lists exactly the addresses that acknowledged, and has never
    /// more answers than there are addresses.
    pub proof fn lemma_found(&self)
        requires
            self.wf(),
        ensures
            self.answers().len() <= ADDRESS_COUNT,
            lists_acknowledged(self.found(), self.answers()),
    {
    }

    /// The scan has been through every address.
    pub fn is_complete(&self) -> (complete: bool)
        requires
            self.wf(),
        ensures
            complete <==> self.answers().len() == ADDRESS_COUNT,
    {
        self.next >= ADDRESS_COUNT
    }

    /// The next transaction of the scan: an empty write to the lowest address
    /// not probed yet. `None` once every address has been probed.
    pub fn next_probe(&self) -> (probe: Option<Command>)
        requires
            self.wf(),
        ensures
            match probe {
                Some(command) => {
                    &&& self.answers().len() < ADDRESS_COUNT
                    &&& command.asks(self.answers().len() as u8, Seq::empty(), 0)
                },
                None => self.answers().len() == ADDRESS_COUNT,
            },
    {
        if self.next < ADDRESS_COUNT {
            Some(Command { address: self.next, opcode: Vec::new(), response_len: 0 })
        } else {
            None
        }
    }

    /// Takes the outcome of the probe that `next_probe` asked for. An
    /// acknowledged write means a device: its address is returned and joins
    /// the list. Any failure means that nobody is there. After the last
    /// address the scan is closed and an outcome changes nothing.
    pub fn record(&mut self, outcome: Result<(), BusError>) -> (device: Option<u8>)
        requires
            old(self).wf(),
        ensures
            final(self).wf(),
            final(self).bus() == old(self).bus(),
            old(self).answers().len() < ADDRESS_COUNT ==> {
                &&& final(self).answers() == old(self).answers().push(outcome is Ok)
                &&& device == if outcome is Ok {
                    Some(old(self).answers().len() as u8)
                } else {
                    None
                }
                &&& final(self).found() == match device {
                    Some(address) => old(self).found().push(address),
                    None => old(self).found(),
                }
            },
            old(self).answers().len() == ADDRESS_COUNT ==> {
                &&& final(self).answers() == old(self).answers()
                &&& final(self).found() == old(self).found()
                &&& device is None
            },
    {
        if self.next >= ADDRESS_COUNT {
            return None;
        }
        let address: u8 = self.next;
        let ghost before = self.answers@;
        let ghost found_before = self.found@;
        let acknowledged = outcome.is_ok();
        self.next = address + 1;
        self.answers = Ghost(before.push(acknowledged));
        if acknowledged {
            self.found.push(address);
            proof {
                let found = self.found@;
                assert forall|a: int| 0 <= a < before.len() && before[a] implies found.contains(
                    a as u8,
                ) by {
                    let k: int = found_before.index_of(a as u8);
                    assert(found[k] == a as u8);
                }
                assert(found[found.len() - 1] == address);
            }
            Some(address)
        } else {
            None
        }
    }

    /// What the scan has found so far: the addresses that acknowledged, each
    /// once and lowest first, and how many they are. After the last probe
    /// this is the result of the scan.
    pub fn report(&self) -> (report: ScanReport)
        requires
            self.wf(),
        ensures
            report.addresses@ == self.found(),
            lists_acknowledged(report.addresses@, self.answers()),
            report.addresses@.to_set() == acknowledging(self.answers()),
            report.count == acknowledging(self.answers()).len(),
    {
        let addresses = self.found.clone();
        proof {
            lemma_list_names_devices(self.found@, self.answers@);
        }
        ScanReport { count: addresses.len(), addresses }
    }

    /// Ends the scan and gives the bus back.
    pub fn inner(self) -> (i2c: B)
        ensures
            i2c == self.bus(),
    {
        self.i2c
    }

    /// The bus, to carry out the probe on. The scan itself stays as it is.
    pub fn inner_mut(&mut self) -> (i2c: &mut B)
        ensures
            *i2c == old(self).bus(),
            final(self).bus() == *final(i2c),
            final(self).answers() == old(self).answers(),
            final(self).found() == old(self).found(),
            old(self).wf() ==> final(self).wf(),
    {
        &mut self.i2c
    }
}

} // verus!
