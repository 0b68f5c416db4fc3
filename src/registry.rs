//! The registry of discovered MIDI input devices: an ordered list of names,
//! in order of discovery, duplicates kept, emptied only by `clear`.

use vstd::prelude::*;

verus! {

/// The names of the devices registered since the last `clear`.
#[derive(Debug)]
pub struct DeviceRegistry {
    devices: Vec<String>,
}

impl View for DeviceRegistry {
    type V = Seq<Seq<char>>;

    closed spec fn view(&self) -> Seq<Seq<char>> {
        self.devices@.map_values(|d: String| d@)
    }
}

impl DeviceRegistry {
    /// An empty registry.
    pub fn new() -> (r: Self)
        ensures
            r@ == Seq::<Seq<char>>::empty(),
    {
        let r = DeviceRegistry { devices: Vec::new() };
        assert(r@ =~= Seq::<Seq<char>>::empty());
        r
    }

    /// Appends `name` as the last discovered device.
    pub fn register(&mut self, name: String)
        ensures
            final(self)@ == old(self)@.push(name@),
    {
        self.devices.push(name);
        assert(self@ =~= old(self)@.push(name@));
    }

    /// Forgets every registered device.
    pub fn clear(&mut self)
        ensures
            final(self)@ == Seq::<Seq<char>>::empty(),
    {
        self.devices.clear();
        assert(self@ =~= Seq::<Seq<char>>::empty());
    }

    /// The number of registered devices.
    pub fn len(&self) -> (r: usize)
        ensures
            r == self@.len(),
    {
        self.devices.len()
    }

    /// A copy of the registered names, in order of discovery.
    pub fn snapshot(&self) -> (r: Vec<String>)
        ensures
            r@.map_values(|d: String| d@) == self@,
    {
        let mut r: Vec<String> = Vec::new();
        let mut i: usize = 0;
        while i < self.devices.len()
            invariant
                i <= self.devices@.len(),
                r@.len() == i,
                forall|j: int| 0 <= j < i ==> #[trigger] r@[j]@ == self.devices@[j]@,
            decreases self.devices@.len() - i,
        {
            r.push(self.devices[i].clone());
            i = i + 1;
        }
        assert(r@.map_values(|d: String| d@) =~= self@);
        r
    }
}

} // verus!
