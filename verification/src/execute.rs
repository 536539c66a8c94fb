use vstd::prelude::*;

verus! {

/// A last-in-first-out stack of 32-bit operand slots.
pub struct OperandStack {
    vec: Vec<u32>,
}

impl View for OperandStack {
    type V = Seq<u32>;

    closed spec fn view(&self) -> Seq<u32> {
        self.vec@
    }
}

impl OperandStack {
    /// An empty stack.
    pub fn new() -> (r: OperandStack)
        ensures
            r@ == Seq::<u32>::empty(),
    {
        OperandStack { vec: Vec::new() }
    }

    /// Remove and return the top slot.
    pub fn pop(&mut self) -> (r: u32)
        requires
            old(self)@.len() > 0,
        ensures
            final(self)@ == old(self)@.drop_last(),
            r == old(self)@.last(),
    {
        self.vec.pop().unwrap()
    }

    /// Push a slot on top.
    pub fn push(&mut self, n: u32)
        ensures
            final(self)@ == old(self)@.push(n),
    {
        self.vec.push(n);
    }

    /// Exchange the two topmost slots.
    pub fn swap(&mut self)
        requires
            old(self)@.len() >= 2,
        ensures
            final(self)@ == old(self)@.update(old(self)@.len() - 1, old(self)@[old(self)@.len() - 2])
                .update(old(self)@.len() - 2, old(self)@[old(self)@.len() - 1]),
    {
        let a = self.vec.pop().unwrap();
        let b = self.vec.pop().unwrap();
        self.vec.push(a);
        self.vec.push(b);
        proof {
            assert(self@ =~= old(self)@.update(old(self)@.len() - 1, old(self)@[old(
                self,
            )@.len() - 2]).update(old(self)@.len() - 2, old(self)@[old(self)@.len() - 1]));
        }
    }
}

/// The indexed local variable slots of a frame. `store` inserts at the given
/// slot and shifts the following slots up rather than overwriting in place.
pub struct LocalVariables {
    vec: Vec<u32>,
}

impl View for LocalVariables {
    type V = Seq<u32>;

    closed spec fn view(&self) -> Seq<u32> {
        self.vec@
    }
}

impl LocalVariables {
    /// `size` zero-initialized slots.
    pub fn new(size: usize) -> (r: LocalVariables)
        ensures
            r@.len() == size,
            forall|i: int| 0 <= i < size ==> r@[i] == 0u32,
    {
        LocalVariables { vec: vec![0; size] }
    }

    /// Insert `value` at slot `address`, shifting later slots up.
    pub fn store(&mut self, address: u8, value: u32)
        requires
            address as int <= old(self)@.len(),
            old(self)@.len() < usize::MAX,
        ensures
            final(self)@ == old(self)@.insert(address as int, value),
    {
        self.vec.insert(address as usize, value);
    }

    /// Insert a two-slot value at `address` and `address + 1`, shifting later
    /// slots up.
    pub fn store2(&mut self, address: u8, value1: u32, value2: u32)
        requires
            address as int <= old(self)@.len(),
            old(self)@.len() + 1 < usize::MAX,
        ensures
            final(self)@ == old(self)@.insert(address as int, value1).insert(address as int + 1, value2),
    {
        self.vec.insert(address as usize, value1);
        self.vec.insert(address as usize + 1, value2);
    }

    /// Read the slot at `address`.
    pub fn load(&self, address: u8) -> (r: u32)
        requires
            (address as int) < self@.len(),
        ensures
            r == self@[address as int],
    {
        self.vec[address as usize]
    }

    /// Read the two-slot value at `address` and `address + 1`.
    pub fn load2(&self, address: u8) -> (r: (u32, u32))
        requires
            address as int + 1 < self@.len(),
        ensures
            r.0 == self@[address as int],
            r.1 == self@[address as int + 1],
    {
        (self.vec[address as usize], self.vec[address as usize + 1])
    }
}

} // verus!
