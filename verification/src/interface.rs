use vstd::prelude::*;
use vstd::string::*;

verus! {

/// A network interface of the host: its name and number, and the four flags
/// that capturing looks at.
#[derive(Debug, PartialEq, Eq)]
pub struct NetworkInterface {
    pub name: String,
    pub index: u32,
    pub up: bool,
    pub broadcast: bool,
    pub loopback: bool,
    pub point_to_point: bool,
}

impl Clone for NetworkInterface {
    fn clone(&self) -> (r: Self)
        ensures
            r == *self,
    {
        NetworkInterface {
            name: self.name.clone(),
            index: self.index,
            up: self.up,
            broadcast: self.broadcast,
            loopback: self.loopback,
            point_to_point: self.point_to_point,
        }
    }
}

impl NetworkInterface {
    /// Whether the interface is up.
    pub fn is_up(&self) -> (r: bool)
        ensures
            r == self.up,
    {
        self.up
    }

    /// Whether the interface can broadcast.
    pub fn is_broadcast(&self) -> (r: bool)
        ensures
            r == self.broadcast,
    {
        self.broadcast
    }

    /// Whether the interface loops back to the host.
    pub fn is_loopback(&self) -> (r: bool)
        ensures
            r == self.loopback,
    {
        self.loopback
    }

    /// Whether the interface is one end of a point-to-point link.
    pub fn is_point_to_point(&self) -> (r: bool)
        ensures
            r == self.point_to_point,
    {
        self.point_to_point
    }
}

} // verus!
