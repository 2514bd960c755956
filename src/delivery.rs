//! Delivery kinds and the messages that issuing and tracking a delivery give.
use vstd::prelude::*;

verus! {

/// What is done with a delivery.
#[derive(Debug, Clone, Copy, PartialEq, Eq, Structural)]
pub enum DeliveryAction {
    Issue,
    Track,
}

/// How a product is delivered.
#[derive(Debug, Clone, Copy, PartialEq, Eq, Structural)]
pub enum DeliveryType {
    Express,
    Insured,
    Standard,
}

pub open spec fn action_verb(action: DeliveryAction) -> Seq<char> {
    match action {
        DeliveryAction::Issue => "Issuing"@,
        DeliveryAction::Track => "Tracking"@,
    }
}

pub open spec fn delivery_word(kind: DeliveryType) -> Seq<char> {
    match kind {
        DeliveryType::Express => "express"@,
        DeliveryType::Insured => "insured"@,
        DeliveryType::Standard => "standard"@,
    }
}

/// `<Issuing|Tracking> <kind> delivery for <product>`
pub open spec fn action_message(kind: DeliveryType, action: DeliveryAction, product: Seq<char>) -> Seq<
    char,
> {
    action_verb(action) + " "@ + delivery_word(kind) + " delivery for "@ + product
}

impl DeliveryType {
    /// The message for doing `action` with a delivery of this kind of `product`.
    pub fn get_action_message(&self, action: DeliveryAction, product: String) -> (r: String)
        ensures
            r@ == action_message(*self, action, product@),
    {
        let mut out = match action {
            DeliveryAction::Issue => String::from_str("Issuing "),
            DeliveryAction::Track => String::from_str("Tracking "),
        };
        match self {
            DeliveryType::Express => out.append("express"),
            DeliveryType::Insured => out.append("insured"),
            DeliveryType::Standard => out.append("standard"),
        }
        out.append(" delivery for ");
        out.append(product.as_str());
        proof {
            reveal_strlit("Issuing ");
            reveal_strlit("Tracking ");
            reveal_strlit("Issuing");
            reveal_strlit("Tracking");
            reveal_strlit(" ");
            assert(out@ =~= action_message(*self, action, product@));
        }
        out
    }
}

/// Issuing and tracking the delivery of one product.
pub trait DeliveryTrait {
    /// The kind of delivery.
    spec fn kind(&self) -> DeliveryType;

    /// The product delivered.
    spec fn product(&self) -> Seq<char>;

    fn deliver_product(&self) -> (r: String)
        ensures
            r@ == action_message(self.kind(), DeliveryAction::Issue, self.product()),
    ;

    fn track_product(&self) -> (r: String)
        ensures
            r@ == action_message(self.kind(), DeliveryAction::Track, self.product()),
    ;
}

/// What every delivery holds.
#[derive(Debug)]
pub struct Delivery {
    pub product: String,
}

impl Delivery {
    pub fn new(product: String) -> (r: Self)
        ensures
            r.product == product,
    {
        Delivery { product }
    }
}

/// A fast delivery.
pub struct DeliveryExpress {
    pub base: Delivery,
}

impl DeliveryTrait for DeliveryExpress {
    open spec fn kind(&self) -> DeliveryType {
        DeliveryType::Express
    }

    open spec fn product(&self) -> Seq<char> {
        self.base.product@
    }

    fn deliver_product(&self) -> (r: String) {
        DeliveryType::Express.get_action_message(DeliveryAction::Issue, self.base.product.clone())
    }

    fn track_product(&self) -> (r: String) {
        DeliveryType::Express.get_action_message(DeliveryAction::Track, self.base.product.clone())
    }
}

/// A delivery covered by insurance.
pub struct DeliveryInsured {
    pub base: Delivery,
}

impl DeliveryTrait for DeliveryInsured {
    open spec fn kind(&self) -> DeliveryType {
        DeliveryType::Insured
    }

    open spec fn product(&self) -> Seq<char> {
        self.base.product@
    }

    fn deliver_product(&self) -> (r: String) {
        DeliveryType::Insured.get_action_message(DeliveryAction::Issue, self.base.product.clone())
    }

    fn track_product(&self) -> (r: String) {
        DeliveryType::Insured.get_action_message(DeliveryAction::Track, self.base.product.clone())
    }
}

/// An ordinary delivery.
pub struct DeliveryStandard {
    pub base: Delivery,
}

impl DeliveryTrait for DeliveryStandard {
    open spec fn kind(&self) -> DeliveryType {
        DeliveryType::Standard
    }

    open spec fn product(&self) -> Seq<char> {
        self.base.product@
    }

    fn deliver_product(&self) -> (r: String) {
        DeliveryType::Standard.get_action_message(DeliveryAction::Issue, self.base.product.clone())
    }

    fn track_product(&self) -> (r: String) {
        DeliveryType::Standard.get_action_message(DeliveryAction::Track, self.base.product.clone())
    }
}

/// A product bought with the kind of delivery chosen for it.
#[derive(Debug)]
pub struct Purchase {
    pub product: String,
    pub delivery_type: DeliveryType,
}

} // verus!
