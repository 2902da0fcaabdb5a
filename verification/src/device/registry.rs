//! The drivers that a connection chooses from.
use crate::command::Error as ProtocolError;
use crate::device::private::Sealed;
use crate::device::{
    Action, ActionView, Device, DeviceKind, Error, Property, PropertyView, Value, ValueView,
    argument_view, id132, id324, id419, id605, id629, lemma_identified, position, value_outcome,
};
use crate::interface::Interface;
use crate::port::Port;
use vstd::prelude::*;

verus! {

/// A device of any of the kinds that [`connect`] knows.
pub enum AnyDevice<P> {
    /// A washing machine with software ID 132.
    Id132(id132::WashingMachine<P>),
    /// A washing machine with software ID 324.
    Id324(id324::WashingMachine<P>),
    /// A washing machine with software ID 419.
    Id419(id419::WashingMachine<P>),
    /// A dishwasher with software ID 605.
    Id605(id605::Dishwasher<P>),
    /// A washing machine with software ID 629.
    Id629(id629::WashingMachine<P>),
}

impl<P: Port> AnyDevice<P> {
    /// Whether `dev` is a device after a connection that succeeded: the
    /// driver is the one for the software ID that the appliance reported, and
    /// that driver's connection went through.
    pub open spec fn connected(dev: Self) -> bool {
        match dev {
            AnyDevice::Id132(d) => id132::WashingMachine::connected(d),
            AnyDevice::Id324(d) => id324::WashingMachine::connected(d),
            AnyDevice::Id419(d) => id419::WashingMachine::connected(d),
            AnyDevice::Id605(d) => id605::Dishwasher::connected(d),
            AnyDevice::Id629(d) => id629::WashingMachine::connected(d),
        }
    }

    /// Whether a connection to the appliance behind `port` has ended with
    /// the result `r`. The appliance is asked for its software ID on a new
    /// interface. The driver that knows the ID unlocks the appliance; where
    /// none does, the result is [`Error::UnknownSoftwareId`] with that ID.
    pub open spec fn connecting(port: P, r: Result<Self, Error<P::Error>>) -> bool {
        exists|asked: Interface<P>, id: Result<u16, ProtocolError<P::Error>>|
            {
                &&& #[trigger] Interface::fresh(port).software_id_queried(asked, id)
                &&& match id {
                    Ok(id) => if id == id132::SOFTWARE_ID {
                        exists|d: Result<id132::WashingMachine<P>, Error<P::Error>>|
                            #[trigger] id132::WashingMachine::initialized(asked, id, d) && match d {
                                Ok(dev) => r == Ok::<Self, Error<P::Error>>(AnyDevice::Id132(dev)),
                                Err(e) => r is Err && r->Err_0 == e,
                            }
                    } else if id == id324::SOFTWARE_ID {
                        exists|d: Result<id324::WashingMachine<P>, Error<P::Error>>|
                            #[trigger] id324::WashingMachine::initialized(asked, id, d) && match d {
                                Ok(dev) => r == Ok::<Self, Error<P::Error>>(AnyDevice::Id324(dev)),
                                Err(e) => r is Err && r->Err_0 == e,
                            }
                    } else if id == id419::SOFTWARE_ID {
                        exists|d: Result<id419::WashingMachine<P>, Error<P::Error>>|
                            #[trigger] id419::WashingMachine::initialized(asked, id, d) && match d {
                                Ok(dev) => r == Ok::<Self, Error<P::Error>>(AnyDevice::Id419(dev)),
                                Err(e) => r is Err && r->Err_0 == e,
                            }
                    } else if id == id605::SOFTWARE_ID {
                        exists|d: Result<id605::Dishwasher<P>, Error<P::Error>>|
                            #[trigger] id605::Dishwasher::initialized(asked, id, d) && match d {
                                Ok(dev) => r == Ok::<Self, Error<P::Error>>(AnyDevice::Id605(dev)),
                                Err(e) => r is Err && r->Err_0 == e,
                            }
                    } else if id == id629::SOFTWARE_ID {
                        exists|d: Result<id629::WashingMachine<P>, Error<P::Error>>|
                            #[trigger] id629::WashingMachine::initialized(asked, id, d) && match d {
                                Ok(dev) => r == Ok::<Self, Error<P::Error>>(AnyDevice::Id629(dev)),
                                Err(e) => r is Err && r->Err_0 == e,
                            }
                    } else {
                        r is Err && r->Err_0 == Error::<P::Error>::UnknownSoftwareId(id)
                    },
                    Err(e) => r is Err && r->Err_0 == Error::Protocol(e),
                }
            }
    }

    /// Whether a query of the property at the place `index` of the table,
    /// started in this state, has ended in the state `after` with the result
    /// `out`: the device is of the same kind as before, and its driver has
    /// run the query.
    pub open spec fn property_queried(
        self,
        after: Self,
        index: int,
        out: Result<ValueView, Error<P::Error>>,
    ) -> bool {
        match (self, after) {
            (AnyDevice::Id132(a), AnyDevice::Id132(b)) => a.property_queried(b, index, out),
            (AnyDevice::Id324(a), AnyDevice::Id324(b)) => a.property_queried(b, index, out),
            (AnyDevice::Id419(a), AnyDevice::Id419(b)) => a.property_queried(b, index, out),
            (AnyDevice::Id605(a), AnyDevice::Id605(b)) => a.property_queried(b, index, out),
            (AnyDevice::Id629(a), AnyDevice::Id629(b)) => a.property_queried(b, index, out),
            _ => false,
        }
    }

    /// Whether a trigger of the action at the place `index` of the table with
    /// the argument `param`, started in this state, has ended in the state
    /// `after` with the result `out`.
    pub open spec fn action_triggered(
        self,
        after: Self,
        index: int,
        param: Option<ValueView>,
        out: Result<(), Error<P::Error>>,
    ) -> bool {
        match (self, after) {
            (AnyDevice::Id324(a), AnyDevice::Id324(b)) => a.action_triggered(b, index, param, out),
            (AnyDevice::Id419(a), AnyDevice::Id419(b)) => a.action_triggered(b, index, param, out),
            (AnyDevice::Id605(a), AnyDevice::Id605(b)) => a.action_triggered(b, index, param, out),
            (AnyDevice::Id629(a), AnyDevice::Id629(b)) => a.action_triggered(b, index, param, out),
            _ => false,
        }
    }
}

impl<P> Sealed for AnyDevice<P> {

}

impl<P: Port> Device<P> for AnyDevice<P> {
    open spec fn intf(&self) -> Interface<P> {
        match *self {
            AnyDevice::Id132(d) => d.intf(),
            AnyDevice::Id324(d) => d.intf(),
            AnyDevice::Id419(d) => d.intf(),
            AnyDevice::Id605(d) => d.intf(),
            AnyDevice::Id629(d) => d.intf(),
        }
    }

    open spec fn id(&self) -> u16 {
        match *self {
            AnyDevice::Id132(d) => d.id(),
            AnyDevice::Id324(d) => d.id(),
            AnyDevice::Id419(d) => d.id(),
            AnyDevice::Id605(d) => d.id(),
            AnyDevice::Id629(d) => d.id(),
        }
    }

    open spec fn kind_of(&self) -> DeviceKind {
        match *self {
            AnyDevice::Id605(_) => DeviceKind::Dishwasher,
            _ => DeviceKind::WashingMachine,
        }
    }

    open spec fn property_table(&self) -> Seq<PropertyView> {
        match *self {
            AnyDevice::Id132(_) => id132::property_list(),
            AnyDevice::Id324(_) => id324::property_list(),
            AnyDevice::Id419(_) => id419::property_list(),
            AnyDevice::Id605(_) => id605::property_list(),
            AnyDevice::Id629(_) => id629::property_list(),
        }
    }

    open spec fn action_table(&self) -> Seq<ActionView> {
        match *self {
            AnyDevice::Id132(_) => id132::action_list(),
            AnyDevice::Id324(_) => id324::action_list(),
            AnyDevice::Id419(_) => id419::action_list(),
            AnyDevice::Id605(_) => id605::action_list(),
            AnyDevice::Id629(_) => id629::action_list(),
        }
    }

    open spec fn knows(id: u16) -> bool {
        ||| id == id132::SOFTWARE_ID
        ||| id == id324::SOFTWARE_ID
        ||| id == id419::SOFTWARE_ID
        ||| id == id605::SOFTWARE_ID
        ||| id == id629::SOFTWARE_ID
    }

    fn connect(port: P) -> (r: Result<Self, Error<P::Error>>)
        ensures
            Self::connecting(port, r),
            r matches Ok(dev) ==> Self::connected(dev),
    {
        let mut intf = Interface::new(port);
        let ghost start = intf;
        let id = match intf.query_software_id() {
            Ok(id) => id,
            Err(e) => {
                return Err(Error::Protocol(e));
            },
        };
        proof {
            lemma_identified(start, intf, id);
        }
        if id == id132::SOFTWARE_ID {
            match id132::WashingMachine::initialize(intf, id) {
                Ok(dev) => Ok(AnyDevice::Id132(dev)),
                Err(e) => Err(e),
            }
        } else if id == id324::SOFTWARE_ID {
            match id324::WashingMachine::initialize(intf, id) {
                Ok(dev) => Ok(AnyDevice::Id324(dev)),
                Err(e) => Err(e),
            }
        } else if id == id419::SOFTWARE_ID {
            match id419::WashingMachine::initialize(intf, id) {
                Ok(dev) => Ok(AnyDevice::Id419(dev)),
                Err(e) => Err(e),
            }
        } else if id == id605::SOFTWARE_ID {
            match id605::Dishwasher::initialize(intf, id) {
                Ok(dev) => Ok(AnyDevice::Id605(dev)),
                Err(e) => Err(e),
            }
        } else if id == id629::SOFTWARE_ID {
            match id629::WashingMachine::initialize(intf, id) {
                Ok(dev) => Ok(AnyDevice::Id629(dev)),
                Err(e) => Err(e),
            }
        } else {
            Err(Error::UnknownSoftwareId(id))
        }
    }

    fn software_id(&self) -> (r: u16) {
        match self {
            AnyDevice::Id132(d) => d.software_id(),
            AnyDevice::Id324(d) => d.software_id(),
            AnyDevice::Id419(d) => d.software_id(),
            AnyDevice::Id605(d) => d.software_id(),
            AnyDevice::Id629(d) => d.software_id(),
        }
    }

    fn kind(&self) -> (r: DeviceKind) {
        match self {
            AnyDevice::Id132(d) => d.kind(),
            AnyDevice::Id324(d) => d.kind(),
            AnyDevice::Id419(d) => d.kind(),
            AnyDevice::Id605(d) => d.kind(),
            AnyDevice::Id629(d) => d.kind(),
        }
    }

    fn properties(&self) -> (r: &'static [Property]) {
        match self {
            AnyDevice::Id132(d) => d.properties(),
            AnyDevice::Id324(d) => d.properties(),
            AnyDevice::Id419(d) => d.properties(),
            AnyDevice::Id605(d) => d.properties(),
            AnyDevice::Id629(d) => d.properties(),
        }
    }

    fn actions(&self) -> (r: &'static [Action]) {
        match self {
            AnyDevice::Id132(d) => d.actions(),
            AnyDevice::Id324(d) => d.actions(),
            AnyDevice::Id419(d) => d.actions(),
            AnyDevice::Id605(d) => d.actions(),
            AnyDevice::Id629(d) => d.actions(),
        }
    }

    fn query_property(&mut self, prop: &Property) -> (r: Result<Value, Error<P::Error>>)
        ensures
            match position(old(self).property_table(), prop@) {
                Some(index) => (*old(self)).property_queried(
                    *final(self),
                    index,
                    value_outcome(r),
                ),
                None => *final(self) == *old(self),
            },
    {
        match self {
            AnyDevice::Id132(d) => d.query_property(prop),
            AnyDevice::Id324(d) => d.query_property(prop),
            AnyDevice::Id419(d) => d.query_property(prop),
            AnyDevice::Id605(d) => d.query_property(prop),
            AnyDevice::Id629(d) => d.query_property(prop),
        }
    }

    fn trigger_action(&mut self, action: &Action, param: Option<Value>) -> (r: Result<
        (),
        Error<P::Error>,
    >)
        ensures
            match position(old(self).action_table(), action@) {
                Some(index) => (*old(self)).action_triggered(
                    *final(self),
                    index,
                    argument_view(param),
                    r,
                ),
                None => *final(self) == *old(self),
            },
    {
        match self {
            AnyDevice::Id132(d) => d.trigger_action(action, param),
            AnyDevice::Id324(d) => d.trigger_action(action, param),
            AnyDevice::Id419(d) => d.trigger_action(action, param),
            AnyDevice::Id605(d) => d.trigger_action(action, param),
            AnyDevice::Id629(d) => d.trigger_action(action, param),
        }
    }

    fn interface(&mut self) -> (r: &mut Interface<P>) {
        match self {
            AnyDevice::Id132(d) => d.interface(),
            AnyDevice::Id324(d) => d.interface(),
            AnyDevice::Id419(d) => d.interface(),
            AnyDevice::Id605(d) => d.interface(),
            AnyDevice::Id629(d) => d.interface(),
        }
    }
}

/// Connects to the appliance behind `port`, whatever it is.
///
/// The appliance is asked for its software ID. Where a driver knows the ID,
/// that driver unlocks the diagnostic interface and the device is returned.
/// Where none does, the result is [`Error::UnknownSoftwareId`].
pub fn connect<P: Port>(port: P) -> (r: Result<AnyDevice<P>, Error<P::Error>>)
    ensures
        AnyDevice::connecting(port, r),
        match r {
            Ok(dev) => AnyDevice::connected(dev),
            Err(Error::UnknownSoftwareId(id)) => !AnyDevice::<P>::knows(id),
            Err(e) => e is Protocol,
        },
{
    AnyDevice::connect(port)
}

} // verus!
