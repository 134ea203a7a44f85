//! The drive manager's registry of drives, by serial number.
//!
//! The manager keeps one drive actor per serial number, created the first time a request names
//! the drive. The registry decides which entry a request goes to; the application keeps the
//! actor handles in the same order.

use vstd::prelude::*;

use crate::devices::str_equal;

verus! {

/// The serial numbers of the known drives, in the order they were added.
#[derive(Debug)]
pub struct DriveRegistry {
    serial_numbers: Vec<String>,
}

/// No serial number occurs twice.
pub open spec fn distinct(s: Seq<Seq<char>>) -> bool {
    forall|i: int, j: int| 0 <= i < s.len() && 0 <= j < s.len() && i != j ==> s[i] != s[j]
}

impl View for DriveRegistry {
    type V = Seq<Seq<char>>;

    closed spec fn view(&self) -> Seq<Seq<char>> {
        self.serial_numbers@.map_values(|s: String| s@)
    }
}

impl DriveRegistry {
    /// No drive is registered twice.
    #[verifier::type_invariant]
    closed spec fn no_duplicates(&self) -> bool {
        distinct(self.serial_numbers@.map_values(|s: String| s@))
    }


    /// An empty registry.
    pub fn new() -> (r: DriveRegistry)
        ensures
            r@ == Seq::<Seq<char>>::empty(),
    {
        let r = DriveRegistry { serial_numbers: Vec::new() };
        assert(r@ =~= Seq::<Seq<char>>::empty());
        r
    }

    /// The position of the drive with the serial number, if it is registered.
    pub fn position(&self, serial_number: &str) -> (p: Option<usize>)
        ensures
            match p {
                Some(i) => i < self@.len() && self@[i as int] == serial_number@,
                None => !self@.contains(serial_number@),
            },
    {
        let mut i: usize = 0;
        while i < self.serial_numbers.len()
            invariant
                i <= self.serial_numbers.len(),
                self@ == self.serial_numbers@.map_values(|s: String| s@),
                forall|j: int| 0 <= j < i ==> self@[j] != serial_number@,
            decreases self.serial_numbers.len() - i,
        {
            if str_equal(self.serial_numbers[i].as_str(), serial_number) {
                return Some(i);
            }
            i = i + 1;
        }
        None
    }

    /// The position of the drive with the serial number, registering it at the end if it is
    /// new; also gives whether it was added, in which case its actor must be created.
    pub fn get_or_add(&mut self, serial_number: &str) -> (r: (usize, bool))
        ensures
            distinct(final(self)@),
            r.0 < final(self)@.len(),
            final(self)@[r.0 as int] == serial_number@,
            r.1 == !old(self)@.contains(serial_number@),
            r.1 ==> final(self)@ == old(self)@.push(serial_number@) && r.0 == old(self)@.len(),
            !r.1 ==> final(self)@ == old(self)@,
    {
        proof {
            use_type_invariant(&*self);
        }
        match self.position(serial_number) {
            Some(i) => (i, false),
            None => {
                let ghost before = self@;
                let ghost entry = serial_number@;
                let mut list = Vec::new();
                std::mem::swap(&mut list, &mut self.serial_numbers);
                list.push(serial_number.to_owned());
                let ghost after = list@.map_values(|s: String| s@);
                assert(after =~= before.push(entry));
                assert forall|i: int, j: int|
                    0 <= i < after.len() && 0 <= j < after.len() && i != j implies after[i]
                    != after[j] by {
                    if i == before.len() as int {
                        assert(before[j] == after[j]);
                    } else if j == before.len() as int {
                        assert(before[i] == after[i]);
                    } else {
                        assert(before[i] == after[i] && before[j] == after[j]);
                    }
                }
                self.serial_numbers = list;
                (self.serial_numbers.len() - 1, true)
            },
        }
    }

    /// The serial numbers of the registered drives, in the order they were added.
    pub fn serial_numbers(&self) -> (v: Vec<String>)
        ensures
            v@.map_values(|s: String| s@) == self@,
    {
        let mut v: Vec<String> = Vec::new();
        let mut i: usize = 0;
        while i < self.serial_numbers.len()
            invariant
                i <= self.serial_numbers.len(),
                self@ == self.serial_numbers@.map_values(|s: String| s@),
                v@.map_values(|s: String| s@) == self@.take(i as int),
            decreases self.serial_numbers.len() - i,
        {
            let ghost before = v@.map_values(|s: String| s@);
            v.push(self.serial_numbers[i].clone());
            assert(v@.map_values(|s: String| s@) =~= before.push(self@[i as int]));
            assert(self@.take(i + 1) =~= self@.take(i as int).push(self@[i as int]));
            i = i + 1;
        }
        assert(self@.take(self@.len() as int) =~= self@);
        v
    }
}

/// A request for a drive is routed to the same actor every time: once a drive is registered,
/// registering it again finds the same position and adds nothing.
pub proof fn lemma_registration_stable(s: Seq<Seq<char>>, serial_number: Seq<char>, i: int)
    requires
        distinct(s),
        0 <= i < s.len(),
        s[i] == serial_number,
    ensures
        forall|j: int| 0 <= j < s.len() && s[j] == serial_number ==> j == i,
{
}

} // verus!
