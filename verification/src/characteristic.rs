//! What a schema declares of one characteristic: its UUID, what may be done
//! with it, and how access to it is secured.

use vstd::prelude::*;

verus! {

/// The operations that a characteristic allows. None is allowed unless the
/// schema says so.
#[derive(Clone, Copy, Debug, PartialEq, Eq, Structural)]
pub struct Properties {
    pub read: bool,
    pub write: bool,
    pub write_without_response: bool,
    pub notify: bool,
    pub indicate: bool,
}

/// The security that reading and writing a characteristic ask of a link.
#[derive(Clone, Copy, Debug, PartialEq, Eq, Structural)]
pub enum SecurityMode {
    NoAccess,
    Open,
    JustWorks,
    Mitm,
    LescMitm,
    Signed,
    SignedMitm,
}

/// Which bits of a write to the client characteristic configuration
/// descriptor a characteristic listens to.
#[derive(Clone, Copy, Debug, PartialEq, Eq, Structural)]
pub enum CccdLayout {
    /// Bit 0 alone.
    Notifications,
    /// Bit 1 alone.
    Indications,
    /// Bits 0 and 1.
    Both,
}

/// The subscription state that a write to the descriptor announces.
#[derive(Clone, Copy, Debug, PartialEq, Eq, Structural)]
pub enum Subscription {
    Notifications { notifications: bool },
    Indications { indications: bool },
    Both { indications: bool, notifications: bool },
}

impl Properties {
    /// No operation allowed.
    pub open spec fn spec_none() -> Properties {
        Properties {
            read: false,
            write: false,
            write_without_response: false,
            notify: false,
            indicate: false,
        }
    }

    /// No operation allowed.
    pub fn none() -> (r: Properties)
        ensures
            r == Self::spec_none(),
    {
        Properties {
            read: false,
            write: false,
            write_without_response: false,
            notify: false,
            indicate: false,
        }
    }

    /// Whether any operation is allowed.
    pub open spec fn spec_accessible(self) -> bool {
        self.read || self.write || self.write_without_response || self.notify || self.indicate
    }

    /// Whether any operation is allowed.
    #[verifier::when_used_as_spec(spec_accessible)]
    pub fn accessible(self) -> (r: bool)
        ensures
            r == self.spec_accessible(),
    {
        self.read || self.write || self.write_without_response || self.notify || self.indicate
    }

    /// Whether a peer may write the value, with or without response.
    pub open spec fn spec_writable(self) -> bool {
        self.write || self.write_without_response
    }

    /// Whether a peer may write the value, with or without response.
    #[verifier::when_used_as_spec(spec_writable)]
    pub fn writable(self) -> (r: bool)
        ensures
            r == self.spec_writable(),
    {
        self.write || self.write_without_response
    }

    /// Whether the characteristic has a configuration descriptor, and so a
    /// handle for it.
    pub open spec fn spec_subscribable(self) -> bool {
        self.notify || self.indicate
    }

    /// Whether the characteristic has a configuration descriptor.
    #[verifier::when_used_as_spec(spec_subscribable)]
    pub fn subscribable(self) -> (r: bool)
        ensures
            r == self.spec_subscribable(),
    {
        self.notify || self.indicate
    }

    /// Whether a client has any use for the characteristic: one of read,
    /// write, notify and indicate is declared.
    pub open spec fn spec_required_by_client(self) -> bool {
        self.read || self.write || self.notify || self.indicate
    }

    /// Whether a client has any use for the characteristic.
    #[verifier::when_used_as_spec(spec_required_by_client)]
    pub fn required_by_client(self) -> (r: bool)
        ensures
            r == self.spec_required_by_client(),
    {
        self.read || self.write || self.notify || self.indicate
    }

    /// The bits of a descriptor write that the characteristic decodes, if any.
    pub open spec fn spec_cccd_layout(self) -> Option<CccdLayout> {
        if self.notify && self.indicate {
            Some(CccdLayout::Both)
        } else if self.notify {
            Some(CccdLayout::Notifications)
        } else if self.indicate {
            Some(CccdLayout::Indications)
        } else {
            None
        }
    }

    /// The bits of a descriptor write that the characteristic decodes, if any.
    #[verifier::when_used_as_spec(spec_cccd_layout)]
    pub fn cccd_layout(self) -> (r: Option<CccdLayout>)
        ensures
            r == self.spec_cccd_layout(),
    {
        if self.notify && self.indicate {
            Some(CccdLayout::Both)
        } else if self.notify {
            Some(CccdLayout::Notifications)
        } else if self.indicate {
            Some(CccdLayout::Indications)
        } else {
            None
        }
    }
}

/// The bit of a descriptor write that enables notifications.
pub const NOTIFICATIONS_BIT: u8 = 0x01;

/// The bit of a descriptor write that enables indications.
pub const INDICATIONS_BIT: u8 = 0x02;

impl CccdLayout {
    /// The bits of the first byte that count.
    pub open spec fn spec_mask(self) -> u8 {
        match self {
            CccdLayout::Notifications => 0x01,
            CccdLayout::Indications => 0x02,
            CccdLayout::Both => 0x03,
        }
    }

    /// The bits of the first byte that count.
    #[verifier::when_used_as_spec(spec_mask)]
    pub fn mask(self) -> (r: u8)
        ensures
            r == self.spec_mask(),
    {
        match self {
            CccdLayout::Notifications => 0x01,
            CccdLayout::Indications => 0x02,
            CccdLayout::Both => 0x03,
        }
    }

    /// The subscription state in the first byte of a descriptor write: bit 0
    /// enables notifications, bit 1 indications. Bits outside the mask do not
    /// count.
    pub open spec fn spec_decode(self, first: u8) -> Subscription {
        match self {
            CccdLayout::Notifications => Subscription::Notifications {
                notifications: first & NOTIFICATIONS_BIT != 0,
            },
            CccdLayout::Indications => Subscription::Indications {
                indications: first & INDICATIONS_BIT != 0,
            },
            CccdLayout::Both => Subscription::Both {
                indications: first & INDICATIONS_BIT != 0,
                notifications: first & NOTIFICATIONS_BIT != 0,
            },
        }
    }

    /// The subscription state in the first byte of a descriptor write.
    #[verifier::when_used_as_spec(spec_decode)]
    pub fn decode(self, first: u8) -> (r: Subscription)
        ensures
            r == self.spec_decode(first),
    {
        match self {
            CccdLayout::Notifications => Subscription::Notifications {
                notifications: first & NOTIFICATIONS_BIT != 0,
            },
            CccdLayout::Indications => Subscription::Indications {
                indications: first & INDICATIONS_BIT != 0,
            },
            CccdLayout::Both => Subscription::Both {
                indications: first & INDICATIONS_BIT != 0,
                notifications: first & NOTIFICATIONS_BIT != 0,
            },
        }
    }
}

/// The event that a write to the configuration descriptor stands for: none
/// for an empty write or a characteristic that neither notifies nor
/// indicates, else the state in the first byte.
pub open spec fn spec_decode_cccd(props: Properties, data: Seq<u8>) -> Option<Subscription> {
    match props.spec_cccd_layout() {
        Some(layout) => if data.len() == 0 {
            None
        } else {
            Some(layout.spec_decode(data[0]))
        },
        None => None,
    }
}

/// The event that a write to the configuration descriptor stands for, if
/// any.
pub fn decode_cccd(props: Properties, data: &[u8]) -> (r: Option<Subscription>)
    ensures
        r == spec_decode_cccd(props, data@),
{
    match props.cccd_layout() {
        Some(layout) => if data.len() == 0 {
            None
        } else {
            Some(layout.decode(data[0]))
        },
        None => None,
    }
}

/// What the first byte of a descriptor write decodes to, by the two bits
/// that a layout keeps: each of the four values of the two bits gives its
/// own state under the layout of both bits, bit 0 alone decides under the
/// layout of notifications, and bit 1 alone under that of indications.
pub proof fn lemma_cccd_outcomes(first: u8)
    ensures
        first & 0x03 == 0x00 ==> CccdLayout::Both.spec_decode(first) == (Subscription::Both {
            indications: false,
            notifications: false,
        }),
        first & 0x03 == 0x01 ==> CccdLayout::Both.spec_decode(first) == (Subscription::Both {
            indications: false,
            notifications: true,
        }),
        first & 0x03 == 0x02 ==> CccdLayout::Both.spec_decode(first) == (Subscription::Both {
            indications: true,
            notifications: false,
        }),
        first & 0x03 == 0x03 ==> CccdLayout::Both.spec_decode(first) == (Subscription::Both {
            indications: true,
            notifications: true,
        }),
        first & 0x03 == 0x00 || first & 0x03 == 0x01 || first & 0x03 == 0x02 || first & 0x03
            == 0x03,
        CccdLayout::Notifications.spec_decode(first) == (Subscription::Notifications {
            notifications: first & 0x01 == 0x01,
        }),
        CccdLayout::Indications.spec_decode(first) == (Subscription::Indications {
            indications: first & 0x02 == 0x02,
        }),
{
    assert(first & 0x03 == 0x00 ==> first & 0x01 == 0 && first & 0x02 == 0) by (bit_vector);
    assert(first & 0x03 == 0x01 ==> first & 0x01 != 0 && first & 0x02 == 0) by (bit_vector);
    assert(first & 0x03 == 0x02 ==> first & 0x01 == 0 && first & 0x02 != 0) by (bit_vector);
    assert(first & 0x03 == 0x03 ==> first & 0x01 != 0 && first & 0x02 != 0) by (bit_vector);
    assert(first & 0x03 == 0x00 || first & 0x03 == 0x01 || first & 0x03 == 0x02 || first & 0x03
        == 0x03) by (bit_vector);
    assert(first & 0x01 == 0 || first & 0x01 == 0x01) by (bit_vector);
    assert(first & 0x02 == 0 || first & 0x02 == 0x02) by (bit_vector);
}

/// A write to the descriptor gives an event exactly where the
/// characteristic notifies or indicates and the write is not empty; the
/// event then holds the state in the first byte.
pub proof fn lemma_cccd_event(props: Properties, data: Seq<u8>)
    ensures
        spec_decode_cccd(props, data) is Some <==> (props.notify || props.indicate) && data.len()
            > 0,
        props.notify && props.indicate && data.len() > 0 ==> spec_decode_cccd(props, data) == Some(
            CccdLayout::Both.spec_decode(data[0]),
        ),
        props.notify && !props.indicate && data.len() > 0 ==> spec_decode_cccd(props, data) == Some(
            CccdLayout::Notifications.spec_decode(data[0]),
        ),
        !props.notify && props.indicate && data.len() > 0 ==> spec_decode_cccd(props, data) == Some(
            CccdLayout::Indications.spec_decode(data[0]),
        ),
{
}

} // verus!
