//! Alarms.

use vstd::prelude::*;
use vstd::string::*;

verus! {

/// The names that are given, in order.
pub open spec fn named(names: Seq<Option<String>>) -> Seq<Seq<char>>
    decreases names.len(),
{
    if names.len() == 0 {
        Seq::empty()
    } else {
        match names.last() {
            Some(name) => named(names.drop_last()).push(name@),
            None => named(names.drop_last()),
        }
    }
}

/// Rows of the alarm service.
pub struct CloudwatchService {}

impl CloudwatchService {
    /// The rows for the alarms that the backend listed: the name of each
    /// alarm that has one.
    pub fn list_alarms(alarm_names: &[Option<String>]) -> (alarms: Vec<String>)
        ensures
            alarms.deep_view() == named(alarm_names@),
    {
        let mut alarms: Vec<String> = Vec::new();
        let mut i: usize = 0;
        assert(alarms.deep_view() =~= named(alarm_names@.take(0)));
        while i < alarm_names.len()
            invariant
                i <= alarm_names.len(),
                alarms.deep_view() == named(alarm_names@.take(i as int)),
            decreases alarm_names.len() - i,
        {
            proof {
                assert(alarm_names@.take(i + 1).drop_last() =~= alarm_names@.take(i as int));
            }
            match &alarm_names[i] {
                Some(name) => {
                    alarms.push(name.clone());
                    assert(alarms.deep_view() =~= named(alarm_names@.take(i + 1)));
                },
                None => {},
            }
            i += 1;
        }
        assert(alarm_names@.take(i as int) =~= alarm_names@);
        alarms
    }
}

} // verus!
