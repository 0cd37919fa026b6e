//! One aggregation pass: from the devices known now to the text that answers
//! a request for metrics.

use vstd::prelude::*;
use crate::address::DeviceAddress;
use crate::address::Endpoint;
use crate::discovery::DeviceSet;
use crate::format::format_metrics;
use crate::models::DeviceRole;
use crate::models::Metrics;
use crate::telemetry::fetch_request;
use crate::telemetry::FetchRequest;
use crate::telemetry::ScrapeFailure;

verus! {

/// The answer of the liveness check. It depends on nothing.
pub fn health() -> (body: &'static str)
    ensures
        body@ == "OK"@,
{
    "OK"
}

/// How an aggregation pass goes on once it has read the current devices.
#[derive(Debug, Clone, PartialEq, Eq)]
pub enum AggregationPlan {
    /// Nothing is known to fetch from: answer with this text at once.
    Respond(String),
    /// Fetch from every device at once, wait for all of them, and render the
    /// outcomes with [`metrics`].
    Fetch(Vec<FetchRequest>),
}

/// Plans an aggregation pass over the devices known now. Without devices the
/// pass answers with the empty text and sends no request; otherwise it asks
/// every device once, in the order of the set.
pub fn plan_aggregation(devices: &DeviceSet) -> (plan: AggregationPlan)
    ensures
        match plan {
            AggregationPlan::Respond(text) => devices@.len() == 0 && text@.len() == 0,
            AggregationPlan::Fetch(requests) => devices@.len() > 0 && requests@.len()
                == devices@.len() && forall|i: int|
                0 <= i < requests@.len() ==> fetches_from(#[trigger] requests@[i], devices@[i]),
        },
{
    if devices.is_empty() {
        return AggregationPlan::Respond(String::new());
    }
    let mut requests: Vec<FetchRequest> = Vec::new();
    let mut at: usize = 0;
    while at < devices.len()
        invariant
            at <= devices@.len(),
            requests@.len() == at,
            forall|i: int| 0 <= i < at ==> fetches_from(#[trigger] requests@[i], devices@[i]),
        decreases devices@.len() - at,
    {
        match devices.get(at) {
            Some(device) => {
                requests.push(fetch_request(&device));
            },
            None => {},
        }
        at = at + 1;
    }
    AggregationPlan::Fetch(requests)
}

/// Whether a request holds the three sub-queries for the given device.
pub open spec fn fetches_from(request: FetchRequest, device: DeviceAddress) -> bool {
    &&& request.device == device
    &&& request.battery_url@ == Endpoint::BatteryManagement.spec_url(device)
    &&& request.cache_url@ == Endpoint::InverterCache.spec_url(device)
    &&& request.powerflow_url@ == Endpoint::PowerFlow.spec_url(device)
}

/// Whether an outcome is a record of the given role.
pub open spec fn has_role(outcome: Result<Metrics, ScrapeFailure>, role: DeviceRole) -> bool {
    outcome matches Ok(record) && record.spec_role() == role
}

/// The position of the first record of the given role among the outcomes of a
/// pass, if there is one.
pub open spec fn first_of_role(outcomes: Seq<Result<Metrics, ScrapeFailure>>, role: DeviceRole)
    -> Option<int>
    decreases outcomes.len(),
{
    if outcomes.len() == 0 {
        None
    } else {
        match first_of_role(outcomes.drop_last(), role) {
            Some(position) => Some(position),
            None => if has_role(outcomes.last(), role) {
                Some(outcomes.len() - 1)
            } else {
                None
            },
        }
    }
}

/// The first record of the given role among the outcomes of a pass.
pub open spec fn chosen(outcomes: Seq<Result<Metrics, ScrapeFailure>>, role: DeviceRole) -> Option<
    Metrics,
> {
    match first_of_role(outcomes, role) {
        Some(position) => Some(outcomes[position].unwrap()),
        None => None,
    }
}

/// The records that a pass renders: at most one primary and at most one
/// secondary, each the first of its role among the devices that yielded a
/// record.
#[derive(Debug, Clone, Copy, PartialEq, Eq)]
pub struct MetricBatch<'a> {
    pub primary: Option<&'a Metrics>,
    pub secondary: Option<&'a Metrics>,
}

impl<'a> MetricBatch<'a> {
    /// The primary record, if the batch has one.
    pub open spec fn spec_primary(&self) -> Option<Metrics> {
        match self.primary {
            Some(record) => Some(*record),
            None => None,
        }
    }

    /// The secondary record, if the batch has one.
    pub open spec fn spec_secondary(&self) -> Option<Metrics> {
        match self.secondary {
            Some(record) => Some(*record),
            None => None,
        }
    }

    /// Each record stands under its own role: the primary one has a battery
    /// section, the secondary one has none.
    pub open spec fn well_formed(&self) -> bool {
        &&& self.spec_primary() matches Some(record) ==> record.spec_role() == DeviceRole::Primary
        &&& self.spec_secondary() matches Some(record) ==> record.spec_role()
            == DeviceRole::Secondary
    }

    /// The number of records in the batch.
    pub open spec fn spec_len(&self) -> nat {
        (if self.primary is Some {
            1nat
        } else {
            0nat
        }) + (if self.secondary is Some {
            1nat
        } else {
            0nat
        })
    }

    /// The number of records in the batch.
    pub fn len(&self) -> (count: usize)
        ensures
            count == self.spec_len(),
            count <= 2,
    {
        let mut count: usize = 0;
        if self.primary.is_some() {
            count = count + 1;
        }
        if self.secondary.is_some() {
            count = count + 1;
        }
        count
    }

    /// The text of the batch: the primary record under its label, then the
    /// secondary record under its label.
    pub open spec fn text(&self) -> Seq<char> {
        batch_text(self.spec_primary(), self.spec_secondary())
    }

    /// Renders the batch.
    pub fn render(&self) -> (text: String)
        ensures
            text@ == self.text(),
    {
        let mut text = String::new();
        match self.primary {
            Some(record) => {
                text.append(format_metrics(record, DeviceRole::Primary.label()).as_str());
            },
            None => {},
        }
        match self.secondary {
            Some(record) => {
                text.append(format_metrics(record, DeviceRole::Secondary.label()).as_str());
            },
            None => {},
        }
        assert(text@ =~= self.text());
        text
    }
}

/// The text of a primary and a secondary record, either of which may be
/// missing.
pub open spec fn batch_text(primary: Option<Metrics>, secondary: Option<Metrics>) -> Seq<char> {
    (match primary {
        Some(record) => record.lines(DeviceRole::Primary.spec_label()),
        None => Seq::<char>::empty(),
    }) + (match secondary {
        Some(record) => record.lines(DeviceRole::Secondary.spec_label()),
        None => Seq::<char>::empty(),
    })
}

/// Picks the records of a batch from the outcomes of a pass, one outcome for
/// each device. A device without a record adds nothing.
pub fn assemble<'a>(outcomes: &'a Vec<Result<Metrics, ScrapeFailure>>) -> (batch: MetricBatch<'a>)
    ensures
        batch.spec_primary() == chosen(outcomes@, DeviceRole::Primary),
        batch.spec_secondary() == chosen(outcomes@, DeviceRole::Secondary),
        batch.well_formed(),
{
    let mut primary: Option<&'a Metrics> = None;
    let mut secondary: Option<&'a Metrics> = None;
    let mut at: usize = 0;
    assert(outcomes@.take(0) =~= Seq::<Result<Metrics, ScrapeFailure>>::empty());
    while at < outcomes.len()
        invariant
            at <= outcomes.len(),
            (MetricBatch { primary, secondary }).spec_primary() == chosen(
                outcomes@.take(at as int),
                DeviceRole::Primary,
            ),
            (MetricBatch { primary, secondary }).spec_secondary() == chosen(
                outcomes@.take(at as int),
                DeviceRole::Secondary,
            ),
        decreases outcomes.len() - at,
    {
        proof {
            let upto = outcomes@.take(at + 1);
            assert(upto.drop_last() =~= outcomes@.take(at as int));
            assert(upto.last() == outcomes@[at as int]);
            lemma_first_of_role_bounds(upto.drop_last(), DeviceRole::Primary);
            lemma_first_of_role_bounds(upto.drop_last(), DeviceRole::Secondary);
        }
        match &outcomes[at] {
            Ok(record) => {
                match record.role() {
                    DeviceRole::Primary => {
                        if primary.is_none() {
                            primary = Some(record);
                        }
                    },
                    DeviceRole::Secondary => {
                        if secondary.is_none() {
                            secondary = Some(record);
                        }
                    },
                }
            },
            Err(_) => {},
        }
        at = at + 1;
    }
    assert(outcomes@.take(at as int) =~= outcomes@);
    proof {
        lemma_first_of_role_bounds(outcomes@, DeviceRole::Primary);
        lemma_first_of_role_bounds(outcomes@, DeviceRole::Secondary);
    }
    MetricBatch { primary, secondary }
}

/// The first position of a role lies among the outcomes, holds a record of
/// that role, and no earlier outcome does.
pub proof fn lemma_first_of_role_bounds(
    outcomes: Seq<Result<Metrics, ScrapeFailure>>,
    role: DeviceRole,
)
    ensures
        match first_of_role(outcomes, role) {
            Some(position) => 0 <= position < outcomes.len() && has_role(outcomes[position], role)
                && forall|i: int| 0 <= i < position ==> !has_role(outcomes[i], role),
            None => forall|i: int| 0 <= i < outcomes.len() ==> !has_role(outcomes[i], role),
        },
    decreases outcomes.len(),
{
    if outcomes.len() > 0 {
        lemma_first_of_role_bounds(outcomes.drop_last(), role);
        assert forall|i: int| 0 <= i < outcomes.len() - 1 implies outcomes.drop_last()[i]
            == outcomes[i] by {}
    }
}

/// The text that answers a request for metrics, from the outcomes of the
/// pass, one for each device that was asked.
pub fn metrics(outcomes: &Vec<Result<Metrics, ScrapeFailure>>) -> (body: String)
    ensures
        body@ == batch_text(
            chosen(outcomes@, DeviceRole::Primary),
            chosen(outcomes@, DeviceRole::Secondary),
        ),
{
    assemble(outcomes).render()
}

/// The records of the devices that yielded one, in the order of the outcomes.
pub open spec fn survivors(outcomes: Seq<Result<Metrics, ScrapeFailure>>) -> Seq<Metrics>
    decreases outcomes.len(),
{
    if outcomes.len() == 0 {
        Seq::<Metrics>::empty()
    } else {
        match outcomes.last() {
            Ok(record) => survivors(outcomes.drop_last()).push(record),
            Err(_) => survivors(outcomes.drop_last()),
        }
    }
}

/// The number of devices that yielded no record.
pub open spec fn failures(outcomes: Seq<Result<Metrics, ScrapeFailure>>) -> nat
    decreases outcomes.len(),
{
    if outcomes.len() == 0 {
        0
    } else {
        failures(outcomes.drop_last()) + if outcomes.last() is Err {
            1nat
        } else {
            0nat
        }
    }
}

/// Every outcome is either a failure or a survivor, so the survivors are as
/// many as the outcomes less the failures, and every record among the outcomes
/// is one of them.
pub proof fn lemma_survivors(outcomes: Seq<Result<Metrics, ScrapeFailure>>)
    ensures
        survivors(outcomes).len() + failures(outcomes) == outcomes.len(),
        forall|i: int|
            0 <= i < outcomes.len() && outcomes[i] is Ok ==> survivors(outcomes).contains(
                #[trigger] outcomes[i].unwrap(),
            ),
    decreases outcomes.len(),
{
    if outcomes.len() > 0 {
        let earlier = outcomes.drop_last();
        lemma_survivors(earlier);
        let all = survivors(outcomes);
        assert forall|i: int| 0 <= i < outcomes.len() && outcomes[i] is Ok implies all.contains(
            #[trigger] outcomes[i].unwrap(),
        ) by {
            if i < earlier.len() {
                assert(earlier[i] == outcomes[i]);
                let record = outcomes[i].unwrap();
                assert(survivors(earlier).contains(record));
                let at = choose|k: int|
                    0 <= k < survivors(earlier).len() && survivors(earlier)[k] == record;
                assert(all[at] == record);
            } else {
                assert(all[all.len() - 1] == outcomes[i].unwrap());
            }
        }
    }
}

/// Two records at different places among the outcomes make at least two
/// survivors.
proof fn lemma_two_survivors(outcomes: Seq<Result<Metrics, ScrapeFailure>>, i: int, j: int)
    requires
        0 <= i < j < outcomes.len(),
        outcomes[i] is Ok,
        outcomes[j] is Ok,
    ensures
        survivors(outcomes).len() >= 2,
    decreases outcomes.len(),
{
    let earlier = outcomes.drop_last();
    if j < outcomes.len() - 1 {
        assert(earlier[i] == outcomes[i]);
        assert(earlier[j] == outcomes[j]);
        lemma_two_survivors(earlier, i, j);
    } else {
        lemma_survivors(earlier);
        assert(earlier[i] == outcomes[i]);
        assert(survivors(earlier).contains(outcomes[i].unwrap()));
    }
}

/// Whatever the number of devices and of failures, a batch holds records of
/// surviving devices only, at most one of each role and so at most two, and
/// never more than there are survivors. The record of a role is in the batch
/// exactly if some device of that role survived, and it is the first of them.
pub proof fn lemma_batch_from_survivors(outcomes: Seq<Result<Metrics, ScrapeFailure>>)
    ensures
        survivors(outcomes).len() == outcomes.len() - failures(outcomes),
        forall|role: DeviceRole|
            (#[trigger] chosen(outcomes, role)) is Some ==> survivors(outcomes).contains(
                chosen(outcomes, role).unwrap(),
            ) && chosen(outcomes, role).unwrap().spec_role() == role,
        forall|role: DeviceRole|
            (#[trigger] chosen(outcomes, role) is Some) <==> exists|i: int|
                0 <= i < survivors(outcomes).len() && (#[trigger] survivors(
                    outcomes,
                )[i]).spec_role() == role,
        (if chosen(outcomes, DeviceRole::Primary) is Some {
            1nat
        } else {
            0nat
        }) + (if chosen(outcomes, DeviceRole::Secondary) is Some {
            1nat
        } else {
            0nat
        }) <= survivors(outcomes).len(),
{
    lemma_survivors(outcomes);
    lemma_first_of_role_bounds(outcomes, DeviceRole::Primary);
    lemma_first_of_role_bounds(outcomes, DeviceRole::Secondary);
    assert forall|role: DeviceRole| (#[trigger] chosen(outcomes, role)) is Some implies survivors(
        outcomes,
    ).contains(chosen(outcomes, role).unwrap()) && chosen(outcomes, role).unwrap().spec_role()
        == role by {
        lemma_first_of_role_bounds(outcomes, role);
    }
    assert forall|role: DeviceRole|
        (#[trigger] chosen(outcomes, role) is Some) <==> exists|i: int|
            0 <= i < survivors(outcomes).len() && (#[trigger] survivors(outcomes)[i]).spec_role()
                == role by {
        lemma_first_of_role_bounds(outcomes, role);
        if chosen(outcomes, role) is Some {
            let record = chosen(outcomes, role).unwrap();
            assert(survivors(outcomes).contains(record));
            let at = choose|k: int|
                0 <= k < survivors(outcomes).len() && survivors(outcomes)[k] == record;
            assert(survivors(outcomes)[at].spec_role() == role);
        }
        if exists|i: int|
            0 <= i < survivors(outcomes).len() && (#[trigger] survivors(outcomes)[i]).spec_role()
                == role {
            let at = choose|i: int|
                0 <= i < survivors(outcomes).len() && (#[trigger] survivors(
                    outcomes,
                )[i]).spec_role() == role;
            lemma_survivor_origin(outcomes, at);
        }
    }
    if chosen(outcomes, DeviceRole::Primary) is Some && chosen(outcomes, DeviceRole::Secondary)
        is Some {
        let first = first_of_role(outcomes, DeviceRole::Primary).unwrap();
        let second = first_of_role(outcomes, DeviceRole::Secondary).unwrap();
        if first < second {
            lemma_two_survivors(outcomes, first, second);
        } else {
            lemma_two_survivors(outcomes, second, first);
        }
    } else if chosen(outcomes, DeviceRole::Primary) is Some {
        assert(survivors(outcomes).contains(chosen(outcomes, DeviceRole::Primary).unwrap()));
    } else if chosen(outcomes, DeviceRole::Secondary) is Some {
        assert(survivors(outcomes).contains(chosen(outcomes, DeviceRole::Secondary).unwrap()));
    }
}

/// Every survivor is the record of one of the outcomes.
proof fn lemma_survivor_origin(outcomes: Seq<Result<Metrics, ScrapeFailure>>, at: int)
    requires
        0 <= at < survivors(outcomes).len(),
    ensures
        exists|i: int|
            0 <= i < outcomes.len() && #[trigger] outcomes[i] == Ok::<Metrics, ScrapeFailure>(
                survivors(outcomes)[at],
            ),
    decreases outcomes.len(),
{
    let earlier = outcomes.drop_last();
    if at < survivors(earlier).len() {
        lemma_survivor_origin(earlier, at);
        let i = choose|i: int|
            0 <= i < earlier.len() && #[trigger] earlier[i] == Ok::<Metrics, ScrapeFailure>(
                survivors(earlier)[at],
            );
        assert(outcomes[i] == earlier[i]);
    } else {
        assert(outcomes[outcomes.len() - 1] == Ok::<Metrics, ScrapeFailure>(
            survivors(outcomes)[at],
        ));
    }
}

} // verus!
