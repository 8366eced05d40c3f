//! The channels of each sensor bus.
//!
//! Which channels a bus samples is fixed by the board. Each channel has the
//! name under which the analog input subsystem knows it, the place of its
//! calibration data in the configuration store, and the name under which the
//! rest of the system asks for it. A channel's position in its table is the
//! position of its slot in the shared sampling state.

use crate::text::str_eq;
use vstd::prelude::*;

verus! {

/// One channel of a sensor bus.
#[derive(Clone, Copy, Debug)]
pub struct ChannelDesc {
    /// The channel's name in the analog input subsystem.
    pub iio_name: &'static str,
    /// Where the configuration store holds the channel's calibration.
    pub calibration: &'static str,
    /// The name under which the channel is asked for.
    pub name: &'static str,
}

/// The channels sampled by the processor's own converter, in slot order.
pub open spec fn stm32_table() -> Seq<ChannelDesc> {
    seq![
        ChannelDesc {
            iio_name: "voltage13",
            calibration: "baseboard-factory-data/usb-host-curr",
            name: "usb-host-curr",
        },
        ChannelDesc {
            iio_name: "voltage15",
            calibration: "baseboard-factory-data/usb-host1-curr",
            name: "usb-host1-curr",
        },
        ChannelDesc {
            iio_name: "voltage0",
            calibration: "baseboard-factory-data/usb-host2-curr",
            name: "usb-host2-curr",
        },
        ChannelDesc {
            iio_name: "voltage1",
            calibration: "baseboard-factory-data/usb-host3-curr",
            name: "usb-host3-curr",
        },
        ChannelDesc {
            iio_name: "voltage2",
            calibration: "baseboard-factory-data/out0-volt",
            name: "out0-volt",
        },
        ChannelDesc {
            iio_name: "voltage10",
            calibration: "baseboard-factory-data/out1-volt",
            name: "out1-volt",
        },
        ChannelDesc {
            iio_name: "voltage5",
            calibration: "baseboard-factory-data/iobus-curr",
            name: "iobus-curr",
        },
        ChannelDesc {
            iio_name: "voltage9",
            calibration: "baseboard-factory-data/iobus-volt",
            name: "iobus-volt",
        },
    ]
}

/// The channels sampled by the converter on the power board, in slot order.
pub open spec fn pwr_table() -> Seq<ChannelDesc> {
    seq![
        ChannelDesc {
            iio_name: "voltage",
            calibration: "powerboard-factory-data/pwr-volt",
            name: "pwr-volt",
        },
        ChannelDesc {
            iio_name: "current",
            calibration: "powerboard-factory-data/pwr-curr",
            name: "pwr-curr",
        },
    ]
}

/// Whether `index` is the first channel of `table` that is asked for as
/// `name`.
pub open spec fn first_named(table: Seq<ChannelDesc>, name: Seq<char>, index: int) -> bool {
    &&& 0 <= index < table.len()
    &&& table[index].name@ == name
    &&& forall|j: int| 0 <= j < index ==> (#[trigger] table[j]).name@ != name
}

/// Whether no channel of `table` is asked for as `name`.
pub open spec fn unnamed(table: Seq<ChannelDesc>, name: Seq<char>) -> bool {
    forall|j: int| 0 <= j < table.len() ==> (#[trigger] table[j]).name@ != name
}

/// The channels sampled by the processor's own converter.
pub fn channels_stm32() -> (table: Vec<ChannelDesc>)
    ensures
        table@ == stm32_table(),
{
    let table = vec![
        ChannelDesc {
            iio_name: "voltage13",
            calibration: "baseboard-factory-data/usb-host-curr",
            name: "usb-host-curr",
        },
        ChannelDesc {
            iio_name: "voltage15",
            calibration: "baseboard-factory-data/usb-host1-curr",
            name: "usb-host1-curr",
        },
        ChannelDesc {
            iio_name: "voltage0",
            calibration: "baseboard-factory-data/usb-host2-curr",
            name: "usb-host2-curr",
        },
        ChannelDesc {
            iio_name: "voltage1",
            calibration: "baseboard-factory-data/usb-host3-curr",
            name: "usb-host3-curr",
        },
        ChannelDesc {
            iio_name: "voltage2",
            calibration: "baseboard-factory-data/out0-volt",
            name: "out0-volt",
        },
        ChannelDesc {
            iio_name: "voltage10",
            calibration: "baseboard-factory-data/out1-volt",
            name: "out1-volt",
        },
        ChannelDesc {
            iio_name: "voltage5",
            calibration: "baseboard-factory-data/iobus-curr",
            name: "iobus-curr",
        },
        ChannelDesc {
            iio_name: "voltage9",
            calibration: "baseboard-factory-data/iobus-volt",
            name: "iobus-volt",
        },
    ];
    assert(table@ =~= stm32_table());
    table
}

/// The channels sampled by the converter on the power board.
pub fn channels_pwr() -> (table: Vec<ChannelDesc>)
    ensures
        table@ == pwr_table(),
{
    let table = vec![
        ChannelDesc {
            iio_name: "voltage",
            calibration: "powerboard-factory-data/pwr-volt",
            name: "pwr-volt",
        },
        ChannelDesc {
            iio_name: "current",
            calibration: "powerboard-factory-data/pwr-curr",
            name: "pwr-curr",
        },
    ];
    assert(table@ =~= pwr_table());
    table
}

/// The position of the first channel of `table` that is asked for as `name`;
/// `None` if there is none.
pub fn find_channel(table: &Vec<ChannelDesc>, name: &str) -> (found: Option<usize>)
    ensures
        match found {
            Some(index) => first_named(table@, name@, index as int),
            None => unnamed(table@, name@),
        },
{
    let mut i: usize = 0;
    while i < table.len()
        invariant
            i <= table.len(),
            forall|j: int| 0 <= j < i ==> (#[trigger] table@[j]).name@ != name@,
        decreases table.len() - i,
    {
        if str_eq(table[i].name, name) {
            return Some(i);
        }
        i += 1;
    }
    None
}

} // verus!
