use vstd::prelude::*;

verus! {

/// State of the AMM account processor that the event-ingestion pipeline
/// drives. The pipeline itself streams accounts over the network and lives
/// with the unverified glue; the processor it feeds starts from this empty
/// state.
pub struct RaydiumAmmV4AccountProcessor {}

impl RaydiumAmmV4AccountProcessor {
    pub fn new() -> (r: RaydiumAmmV4AccountProcessor)
        ensures
            r == (RaydiumAmmV4AccountProcessor {  }),
    {
        RaydiumAmmV4AccountProcessor {  }
    }
}

} // verus!
