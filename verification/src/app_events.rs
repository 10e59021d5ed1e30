//! The event subscription and decoration registry.
//!
//! The registry holds at most one subscription per application and event.
//! Emitting an event computes, for each subscriber on its own, the payload
//! to deliver: the raw value, or what the subscriber's decorator makes of
//! the current state. The registry sends nothing itself; it returns one
//! delivery per subscriber, for the transport to carry out.

use vstd::prelude::*;
use serde_json::Value;
use crate::ads::ListenRequest;
use crate::ads::ListenerResponse;
use crate::advertising::skip_restriction_payload;
use crate::advertising::AdvertisingPolicyEventDecorator;
use crate::advertising::AdvertisingSetRestrictionEventDecorator;
use crate::codec::clone_value;
use crate::codec::json_string;
use crate::device_events::DeviceEvent;
use crate::device_events::DeviceEventCallback;
use crate::device_events::DeviceEventRequest;
use crate::device_events::InvalidEventName;
use crate::gateway::CallContext;
use crate::platform::PlatformState;
use crate::storage::Storage;
use crate::storage::StorageProperty;
use crate::text::str_eq;

verus! {

/// A decorator could not produce a payload. The delivery it was computing
/// is dropped; no other delivery is affected.
#[derive(Debug, PartialEq, Eq)]
pub struct DecorationFailed {
    pub reason: String,
}

/// A capability that recomputes the payload of an event at delivery time.
/// The two named decorators are the library's own; `Custom` holds a
/// function supplied by the subscriber's handler.
pub enum Decorator<F> {
    AdvertisingPolicy,
    AdvertisingSetRestriction,
    Custom(F),
}

/// An application's interest in one event.
pub struct Subscription<F> {
    pub ctx: CallContext,
    pub event_name: String,
    pub decorator: Option<Decorator<F>>,
}

/// What one subscriber is owed for one emitted event: the payload to
/// send over the subscriber's channel, or the failure to report.
#[derive(Debug, PartialEq)]
pub struct Delivery {
    pub ctx: CallContext,
    pub event_name: String,
    pub result: Result<Value, DecorationFailed>,
}

/// An event raised inside the runtime, for every subscriber or for the
/// subscribers of one application.
#[derive(Debug, PartialEq)]
pub struct AppEvent {
    pub event_name: String,
    pub result: Value,
    pub app_id: Option<String>,
}

/// Whether `sub` is the subscription of `app_id` to `event`.
pub open spec fn is_for<F>(sub: Subscription<F>, app_id: Seq<char>, event: Seq<char>) -> bool {
    sub.ctx.app_id@ == app_id && sub.event_name@ == event
}

/// Whether the table holds a subscription of `app_id` to `event`.
pub open spec fn holds<F>(subs: Seq<Subscription<F>>, app_id: Seq<char>, event: Seq<char>) -> bool {
    exists|i: int| 0 <= i < subs.len() && is_for(#[trigger] subs[i], app_id, event)
}

/// The place of the subscription of `app_id` to `event`, where the table holds one.
pub open spec fn position<F>(
    subs: Seq<Subscription<F>>,
    app_id: Seq<char>,
    event: Seq<char>,
) -> int {
    choose|i: int| 0 <= i < subs.len() && is_for(#[trigger] subs[i], app_id, event)
}

/// No two subscriptions are of the same application to the same event.
pub open spec fn unique<F>(subs: Seq<Subscription<F>>) -> bool {
    forall|i: int, j: int|
        #![trigger subs[i], subs[j]]
        0 <= i < j < subs.len() ==> !is_for(subs[i], subs[j].ctx.app_id@, subs[j].event_name@)
}

/// The table after `sub` was subscribed: it takes the place of the entry
/// with its key where there is one, and is added at the end where not.
pub open spec fn subscribed<F>(subs: Seq<Subscription<F>>, sub: Subscription<F>) -> Seq<
    Subscription<F>,
> {
    if holds(subs, sub.ctx.app_id@, sub.event_name@) {
        subs.update(position(subs, sub.ctx.app_id@, sub.event_name@), sub)
    } else {
        subs.push(sub)
    }
}

/// The table after `app_id` was unsubscribed from `event`: the entry is
/// removed where there is one, and nothing changes where not.
pub open spec fn unsubscribed<F>(
    subs: Seq<Subscription<F>>,
    app_id: Seq<char>,
    event: Seq<char>,
) -> Seq<Subscription<F>> {
    if holds(subs, app_id, event) {
        subs.remove(position(subs, app_id, event))
    } else {
        subs
    }
}

/// Whether `sub` receives an emission of `event`, sent to every
/// application or only to the application `only`.
pub open spec fn hears<F>(sub: Subscription<F>, event: Seq<char>, only: Option<Seq<char>>) -> bool {
    sub.event_name@ == event && (only matches Some(app_id) ==> sub.ctx.app_id@ == app_id)
}

/// The subscriptions that receive an emission of `event`, in table order.
pub open spec fn audience<F>(
    subs: Seq<Subscription<F>>,
    event: Seq<char>,
    only: Option<Seq<char>>,
) -> Seq<Subscription<F>>
    decreases subs.len(),
{
    if subs.len() == 0 {
        Seq::empty()
    } else {
        let rest = audience(subs.drop_last(), event, only);
        if hears(subs.last(), event, only) {
            rest.push(subs.last())
        } else {
            rest
        }
    }
}

/// Whether a decorator function accepts every input.
pub open spec fn total<
    F: Fn(&PlatformState, &CallContext, &str, &Value) -> Result<Value, DecorationFailed>,
>(
    f: F,
) -> bool {
    forall|ps: &PlatformState, ctx: &CallContext, event: &str, raw: &Value|
        #[trigger] call_requires(f, (ps, ctx, event, raw))
}

/// Whether `decorator` may be entered in the table.
pub open spec fn admissible<
    F: Fn(&PlatformState, &CallContext, &str, &Value) -> Result<Value, DecorationFailed>,
>(
    decorator: Option<Decorator<F>>,
) -> bool {
    decorator matches Some(Decorator::Custom(f)) ==> total(f)
}

/// Whether `result` is what a subscriber with `decorator` is owed when
/// `raw` is emitted: the raw value itself without a decorator, and else
/// what the decorator makes of the state, the subscriber's own context,
/// the event and the raw value.
pub open spec fn decorated<
    F: Fn(&PlatformState, &CallContext, &str, &Value) -> Result<Value, DecorationFailed>,
>(
    decorator: Option<Decorator<F>>,
    ps: &PlatformState,
    ctx: &CallContext,
    event: Seq<char>,
    raw: &Value,
    result: Result<Value, DecorationFailed>,
) -> bool {
    match decorator {
        None => result == Ok::<Value, DecorationFailed>(*raw),
        Some(Decorator::AdvertisingPolicy) => result == Ok::<Value, DecorationFailed>(
            skip_restriction_payload(*ps),
        ),
        Some(Decorator::AdvertisingSetRestriction) => result == Ok::<
            Value,
            DecorationFailed,
        >(skip_restriction_payload(*ps)),
        Some(Decorator::Custom(f)) => exists|name: &str|
            name@ == event && #[trigger] call_ensures(f, (ps, ctx, name, raw), result),
    }
}

/// The table of subscriptions.
pub struct AppEvents<F> {
    listeners: Vec<Subscription<F>>,
}

impl<F> View for AppEvents<F> {
    type V = Seq<Subscription<F>>;

    closed spec fn view(&self) -> Seq<Subscription<F>> {
        self.listeners@
    }
}

impl<
    F: Fn(&PlatformState, &CallContext, &str, &Value) -> Result<Value, DecorationFailed>,
> AppEvents<F> {
    /// At most one subscription per application and event, and every
    /// decorator function accepts every input.
    pub open spec fn wf(&self) -> bool {
        &&& unique(self@)
        &&& forall|i: int| 0 <= i < self@.len() ==> admissible((#[trigger] self@[i]).decorator)
    }

    /// An empty table.
    pub fn new() -> (r: Self)
        ensures
            r.wf(),
            r@ == Seq::<Subscription<F>>::empty(),
    {
        AppEvents { listeners: Vec::new() }
    }

    /// The number of subscriptions.
    pub fn len(&self) -> (r: usize)
        ensures
            r == self@.len(),
    {
        self.listeners.len()
    }

    /// The place of the subscription of `app_id` to `event_name`.
    fn find(&self, app_id: &str, event_name: &str) -> (r: Option<usize>)
        requires
            unique(self@),
        ensures
            r is Some == holds(self@, app_id@, event_name@),
            r matches Some(i) ==> i == position(self@, app_id@, event_name@) && 0 <= i < self@.len()
                && is_for(self@[i as int], app_id@, event_name@),
    {
        let mut i: usize = 0;
        while i < self.listeners.len()
            invariant
                i <= self.listeners.len(),
                unique(self@),
                forall|j: int| 0 <= j < i ==> !is_for(#[trigger] self@[j], app_id@, event_name@),
            decreases self.listeners.len() - i,
        {
            let sub = &self.listeners[i];
            if str_eq(sub.ctx.app_id.as_str(), app_id)
                && str_eq(sub.event_name.as_str(), event_name) {
                return Some(i);
            }
            i += 1;
        }
        None
    }

    /// Whether `app_id` is subscribed to `event_name`.
    pub fn is_subscribed(&self, app_id: &str, event_name: &str) -> (r: bool)
        requires
            self.wf(),
        ensures
            r == holds(self@, app_id@, event_name@),
    {
        self.find(app_id, event_name).is_some()
    }

    /// Subscribes the application of `ctx` to `event_name`. A subscription
    /// that the application already has to this event is replaced, its
    /// decorator included; the table never holds two for one key.
    pub fn subscribe(
        &mut self,
        ctx: CallContext,
        event_name: String,
        decorator: Option<Decorator<F>>,
    ) -> (r: ListenerResponse)
        requires
            old(self).wf(),
            admissible(decorator),
        ensures
            final(self).wf(),
            final(self)@ == subscribed(old(self)@, (Subscription { ctx, event_name, decorator })),
            r.listening,
            r.event@ == event_name@,
    {
        let found = self.find(ctx.app_id.as_str(), event_name.as_str());
        let event = event_name.clone();
        let sub = Subscription { ctx, event_name, decorator };
        proof {
            lemma_subscribed_keeps_unique(self@, sub);
        }
        match found {
            Some(i) => {
                self.listeners.set(i, sub);
            },
            None => {
                self.listeners.push(sub);
            },
        }
        ListenerResponse { listening: true, event }
    }

    /// Removes the subscription of `app_id` to `event_name`. Where there is
    /// none, nothing changes; that is no error.
    pub fn unsubscribe(&mut self, app_id: &str, event_name: &str) -> (r: ListenerResponse)
        requires
            old(self).wf(),
        ensures
            final(self).wf(),
            final(self)@ == unsubscribed(old(self)@, app_id@, event_name@),
            !holds(final(self)@, app_id@, event_name@),
            !r.listening,
            r.event@ == event_name@,
    {
        let found = self.find(app_id, event_name);
        proof {
            lemma_unsubscribed_is_gone(self@, app_id@, event_name@);
        }
        match found {
            Some(i) => {
                let _ = self.listeners.remove(i);
            },
            None => {},
        }
        ListenerResponse { listening: false, event: event_name.to_owned() }
    }

    /// Carries out a listen request: subscribes where it asks to listen,
    /// unsubscribes where not, and answers with the event and the new state.
    pub fn listen(
        &mut self,
        ctx: CallContext,
        request: ListenRequest,
        event_name: String,
        decorator: Option<Decorator<F>>,
    ) -> (r: ListenerResponse)
        requires
            old(self).wf(),
            admissible(decorator),
        ensures
            final(self).wf(),
            request.listen ==> final(self)@ == subscribed(
                old(self)@,
                (Subscription { ctx, event_name, decorator }),
            ),
            !request.listen ==> final(self)@ == unsubscribed(old(self)@, ctx.app_id@, event_name@),
            r.listening == request.listen,
            r.event@ == event_name@,
    {
        if request.listen {
            self.subscribe(ctx, event_name, decorator)
        } else {
            self.unsubscribe(ctx.app_id.as_str(), event_name.as_str())
        }
    }

    /// Subscribes the application of `ctx` to the device event that `name`
    /// names, and returns the request that arms the event at the extension
    /// that owns it. A name outside the vocabulary is refused, and then the
    /// table is not touched.
    pub fn subscribe_device_event(
        &mut self,
        ctx: CallContext,
        name: &str,
        decorator: Option<Decorator<F>>,
    ) -> (r: Result<DeviceEventRequest, InvalidEventName>)
        requires
            old(self).wf(),
            admissible(decorator),
        ensures
            final(self).wf(),
            DeviceEvent::named(name@) is None ==> r is Err && final(self)@ == old(self)@,
            DeviceEvent::named(name@) matches Some(event) ==> r matches Ok(request) && request.event
                == event && request.subscribe && request.callback_type.id() == ctx.app_id@,
            DeviceEvent::named(name@) is Some ==> exists|event_name: String|
                event_name@ == name@ && final(self)@ == subscribed(
                    old(self)@,
                    (Subscription { ctx, event_name, decorator }),
                ),
    {
        let callback_type = DeviceEventCallback::FireboltAppEvent(ctx.app_id.clone());
        match DeviceEventRequest::for_name(name, true, callback_type) {
            Err(e) => Err(e),
            Ok(request) => {
                let _ = self.subscribe(ctx, name.to_owned(), decorator);
                Ok(request)
            },
        }
    }

    /// Unsubscribes `app_id` from the device event that `name` names, and
    /// returns the request that disarms the event for the application at
    /// the extension that owns it. A name outside the vocabulary is
    /// refused, and then the table is not touched.
    pub fn unsubscribe_device_event(&mut self, app_id: &str, name: &str) -> (r: Result<
        DeviceEventRequest,
        InvalidEventName,
    >)
        requires
            old(self).wf(),
        ensures
            final(self).wf(),
            DeviceEvent::named(name@) is None ==> r is Err && final(self)@ == old(self)@,
            DeviceEvent::named(name@) matches Some(event) ==> r matches Ok(request) && request.event
                == event && !request.subscribe && request.callback_type.id() == app_id@,
            DeviceEvent::named(name@) is Some ==> final(self)@ == unsubscribed(
                old(self)@,
                app_id@,
                name@,
            ),
    {
        let callback_type = DeviceEventCallback::FireboltAppEvent(app_id.to_owned());
        match DeviceEventRequest::for_name(name, false, callback_type) {
            Err(e) => Err(e),
            Ok(request) => {
                let _ = self.unsubscribe(app_id, name);
                Ok(request)
            },
        }
    }

    /// Computes the deliveries of one emission, to every subscriber of the
    /// event or only to those of the application `only`.
    fn emit_to(&self, ps: &PlatformState, event_name: &str, raw: &Value, only: Option<&str>) -> (r:
        Vec<Delivery>)
        requires
            self.wf(),
        ensures
            emitted(
                audience(
                    self@,
                    event_name@,
                    match only {
                        Some(app_id) => Some(app_id@),
                        None => None,
                    },
                ),
                ps,
                event_name@,
                raw,
                r@,
            ),
    {
        let ghost target: Option<Seq<char>> = match only {
            Some(app_id) => Some(app_id@),
            None => None,
        };
        let mut out: Vec<Delivery> = Vec::new();
        let mut i: usize = 0;
        while i < self.listeners.len()
            invariant
                i <= self.listeners.len(),
                self.wf(),
                target == (match only {
                    Some(app_id) => Some(app_id@),
                    None => None,
                }),
                emitted(
                    audience(self@.take(i as int), event_name@, target),
                    ps,
                    event_name@,
                    raw,
                    out@,
                ),
            decreases self.listeners.len() - i,
        {
            let sub = &self.listeners[i];
            proof {
                assert(self@.take(i + 1).drop_last() =~= self@.take(i as int));
            }
            let to_app = match only {
                Some(app_id) => str_eq(sub.ctx.app_id.as_str(), app_id),
                None => true,
            };
            if to_app && str_eq(sub.event_name.as_str(), event_name) {
                let result = match &sub.decorator {
                    None => Ok(clone_value(raw)),
                    Some(Decorator::AdvertisingPolicy) => {
                        (AdvertisingPolicyEventDecorator {}).decorate(ps, &sub.ctx, event_name, raw)
                    },
                    Some(Decorator::AdvertisingSetRestriction) => {
                        (AdvertisingSetRestrictionEventDecorator {}).decorate(
                            ps,
                            &sub.ctx,
                            event_name,
                            raw,
                        )
                    },
                    Some(Decorator::Custom(f)) => f(ps, &sub.ctx, event_name, raw),
                };
                let delivery = Delivery {
                    ctx: sub.ctx.clone(),
                    event_name: event_name.to_owned(),
                    result,
                };
                out.push(delivery);
            }
            i += 1;
        }
        proof {
            assert(self@.take(i as int) =~= self@);
        }
        out
    }

    /// Emits `raw` as the event `event_name`: one delivery per subscriber
    /// of the event, in table order, each computed on its own from that
    /// subscriber's decorator and context. A decorator that fails costs its
    /// own subscriber the delivery and nobody else anything; the table is
    /// not changed.
    pub fn emit(&self, ps: &PlatformState, event_name: &str, raw: &Value) -> (r: Vec<Delivery>)
        requires
            self.wf(),
        ensures
            emitted(audience(self@, event_name@, None), ps, event_name@, raw, r@),
    {
        self.emit_to(ps, event_name, raw, None)
    }

    /// Emits an event raised inside the runtime: to the subscribers of the
    /// application it names, or to every subscriber where it names none.
    pub fn emit_with_app_event(&self, ps: &PlatformState, event: &AppEvent) -> (r: Vec<Delivery>)
        requires
            self.wf(),
        ensures
            emitted(
                audience(
                    self@,
                    event.event_name@,
                    match event.app_id {
                        Some(app_id) => Some(app_id@),
                        None => None,
                    },
                ),
                ps,
                event.event_name@,
                &event.result,
                r@,
            ),
    {
        match &event.app_id {
            Some(app_id) => self.emit_to(
                ps,
                event.event_name.as_str(),
                &event.result,
                Some(app_id.as_str()),
            ),
            None => self.emit_to(ps, event.event_name.as_str(), &event.result, None),
        }
    }
}

/// Whether `delivery` is what the subscriber `sub` is owed when `raw` is
/// emitted as `event`: it is addressed to the subscriber, names the event,
/// and carries what the subscriber's own decorator makes of the emission.
pub open spec fn owed<
    F: Fn(&PlatformState, &CallContext, &str, &Value) -> Result<Value, DecorationFailed>,
>(
    sub: Subscription<F>,
    ps: &PlatformState,
    event: Seq<char>,
    raw: &Value,
    delivery: Delivery,
) -> bool {
    &&& delivery.ctx == sub.ctx
    &&& delivery.event_name@ == event
    &&& decorated(sub.decorator, ps, &sub.ctx, event, raw, delivery.result)
}

/// Whether `deliveries` are what the subscribers in `listeners` are owed,
/// one each and in the same order.
pub open spec fn emitted<
    F: Fn(&PlatformState, &CallContext, &str, &Value) -> Result<Value, DecorationFailed>,
>(
    listeners: Seq<Subscription<F>>,
    ps: &PlatformState,
    event: Seq<char>,
    raw: &Value,
    deliveries: Seq<Delivery>,
) -> bool {
    &&& deliveries.len() == listeners.len()
    &&& forall|k: int|
        0 <= k < listeners.len() ==> owed(#[trigger] listeners[k], ps, event, raw, deliveries[k])
}

/// Subscribing keeps the table free of duplicates, and afterwards the
/// table holds the new subscription under its key.
pub proof fn lemma_subscribed_keeps_unique<F>(subs: Seq<Subscription<F>>, sub: Subscription<F>)
    requires
        unique(subs),
    ensures
        unique(subscribed(subs, sub)),
        holds(subscribed(subs, sub), sub.ctx.app_id@, sub.event_name@),
        subscribed(subs, sub)[position(subscribed(subs, sub), sub.ctx.app_id@, sub.event_name@)]
            == sub,
        subscribed(subs, sub).len() == subs.len() + (if holds(
            subs,
            sub.ctx.app_id@,
            sub.event_name@,
        ) {
            0int
        } else {
            1int
        }),
{
    let app_id = sub.ctx.app_id@;
    let event = sub.event_name@;
    let after = subscribed(subs, sub);
    let at: int = if holds(subs, app_id, event) {
        position(subs, app_id, event)
    } else {
        subs.len() as int
    };
    let p = position(after, app_id, event);
    if p < at {
        assert(!is_for(after[p], after[at].ctx.app_id@, after[at].event_name@));
    }
}

/// After unsubscribing, the table holds no subscription under the key, it
/// is still free of duplicates, and every entry left was there before.
pub proof fn lemma_unsubscribed_is_gone<F>(
    subs: Seq<Subscription<F>>,
    app_id: Seq<char>,
    event: Seq<char>,
)
    requires
        unique(subs),
    ensures
        unique(unsubscribed(subs, app_id, event)),
        !holds(unsubscribed(subs, app_id, event), app_id, event),
        forall|i: int|
            0 <= i < unsubscribed(subs, app_id, event).len() ==> subs.contains(
                #[trigger] unsubscribed(subs, app_id, event)[i],
            ),
{
}

/// Everyone in the audience of an emission is a subscriber in the table
/// who hears it.
pub proof fn lemma_audience_is_subscribed<F>(
    subs: Seq<Subscription<F>>,
    event: Seq<char>,
    only: Option<Seq<char>>,
)
    ensures
        forall|k: int|
            0 <= k < audience(subs, event, only).len() ==> subs.contains(
                #[trigger] audience(subs, event, only)[k],
            ) && hears(audience(subs, event, only)[k], event, only),
    decreases subs.len(),
{
    if subs.len() > 0 {
        let front = subs.drop_last();
        lemma_audience_is_subscribed(front, event, only);
        let rest = audience(front, event, only);
    }
}

/// Every subscriber in the table who hears an emission is in its audience.
pub proof fn lemma_subscriber_is_in_audience<F>(
    subs: Seq<Subscription<F>>,
    event: Seq<char>,
    only: Option<Seq<char>>,
    i: int,
)
    requires
        0 <= i < subs.len(),
        hears(subs[i], event, only),
    ensures
        audience(subs, event, only).contains(subs[i]),
    decreases subs.len(),
{
    let front = subs.drop_last();
    let rest = audience(front, event, only);
    let all = audience(subs, event, only);
    if i == subs.len() - 1 {
        assert(all[rest.len() as int] == subs[i]);
    } else {
        lemma_subscriber_is_in_audience(front, event, only, i);
        let k = choose|k: int| 0 <= k < rest.len() && rest[k] == subs[i];
        assert(all[k] == rest[k]);
    }
}

/// Subscribing twice under one key, with whatever decorators, leaves
/// exactly one subscription under that key: the second one, with the
/// second decorator. The first is replaced, not kept beside it.
pub proof fn lemma_resubscribe_replaces<F>(
    subs: Seq<Subscription<F>>,
    first: Subscription<F>,
    second: Subscription<F>,
)
    requires
        unique(subs),
        is_for(second, first.ctx.app_id@, first.event_name@),
    ensures
        ({
            let twice = subscribed(subscribed(subs, first), second);
            let app_id = first.ctx.app_id@;
            let event = first.event_name@;
            &&& unique(twice)
            &&& twice.len() == subscribed(subs, first).len()
            &&& holds(twice, app_id, event)
            &&& twice[position(twice, app_id, event)] == second
            &&& twice[position(twice, app_id, event)].decorator == second.decorator
            &&& forall|i: int|
                0 <= i < twice.len() && is_for(#[trigger] twice[i], app_id, event) ==> i == position(
                    twice,
                    app_id,
                    event,
                )
        }),
{
    let once = subscribed(subs, first);
    lemma_subscribed_keeps_unique(subs, first);
    lemma_subscribed_keeps_unique(once, second);
    let event = first.event_name@;
}

/// What a subscriber without a decorator of its own making is owed does
/// not depend on who else is subscribed, nor on whether their decorators
/// fail: in any two emissions of the same value over the same state, from
/// whatever tables, it is owed the same payload, and that payload is
/// delivered.
pub proof fn lemma_delivery_is_isolated<
    F: Fn(&PlatformState, &CallContext, &str, &Value) -> Result<Value, DecorationFailed>,
>(
    one: Seq<Subscription<F>>,
    other: Seq<Subscription<F>>,
    ps: &PlatformState,
    event: Seq<char>,
    raw: &Value,
    to_one: Seq<Delivery>,
    to_other: Seq<Delivery>,
    i: int,
    j: int,
)
    requires
        emitted(one, ps, event, raw, to_one),
        emitted(other, ps, event, raw, to_other),
        0 <= i < one.len(),
        0 <= j < other.len(),
        one[i] == other[j],
        !(one[i].decorator matches Some(Decorator::Custom(_))),
    ensures
        to_one[i].result is Ok,
        to_one[i].result == to_other[j].result,
        to_one[i].ctx == to_other[j].ctx,
        to_one[i].event_name@ == to_other[j].event_name@,
{
}

/// A subscriber whose subscription carries one of the two advertising
/// decorators is delivered the skip restriction that was last written,
/// whatever raw value the emission carries: the decorator reads the state
/// again and forwards nothing.
pub proof fn lemma_written_restriction_is_delivered<
    F: Fn(&PlatformState, &CallContext, &str, &Value) -> Result<Value, DecorationFailed>,
>(
    listeners: Seq<Subscription<F>>,
    before: Storage,
    value: String,
    ps: &PlatformState,
    event: Seq<char>,
    raw: &Value,
    deliveries: Seq<Delivery>,
    k: int,
)
    requires
        before.available,
        ps.storage == before.written(StorageProperty::SkipRestriction, value),
        emitted(listeners, ps, event, raw, deliveries),
        0 <= k < listeners.len(),
        listeners[k].decorator == Some(Decorator::<F>::AdvertisingSetRestriction)
            || listeners[k].decorator == Some(Decorator::<F>::AdvertisingPolicy),
    ensures
        deliveries[k].result == Ok::<Value, DecorationFailed>(json_string(value@)),
        deliveries[k].ctx == listeners[k].ctx,
{
}

/// After an application has unsubscribed from an event, no emission of
/// that event has the application in its audience: nothing is delivered
/// to it.
pub proof fn lemma_unsubscribed_hears_nothing<F>(
    subs: Seq<Subscription<F>>,
    app_id: Seq<char>,
    event: Seq<char>,
    only: Option<Seq<char>>,
)
    requires
        unique(subs),
    ensures
        forall|k: int|
            0 <= k < audience(unsubscribed(subs, app_id, event), event, only).len() ==> (
            #[trigger] audience(unsubscribed(subs, app_id, event), event, only)[k]).ctx.app_id@
                != app_id,
{
    let after = unsubscribed(subs, app_id, event);
    lemma_unsubscribed_is_gone(subs, app_id, event);
    lemma_audience_is_subscribed(after, event, only);
}

} // verus!
