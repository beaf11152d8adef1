//! Admin updates of the deployment's description and tags.
use vstd::prelude::*;

use crate::address::Address;
use crate::config::{metadata_error, Config, GlobalMetadata};
use crate::constants::CURRENT_SCHEMA_VERSION;
use crate::errors::Unit09Error;
use crate::events::{Event, GlobalMetadataUpdated};
use crate::validators::first_error;

verus! {

/// The description and tags the admin sets.
#[derive(Debug)]
pub struct SetMetadataArgs {
    pub description: String,
    pub tags: String,
}

/// Set the deployment's metadata record, creating it if needed. One
/// `GlobalMetadataUpdated` notification is due. On error nothing changes.
pub fn handle(
    config: &Config,
    metadata: &mut Option<GlobalMetadata>,
    admin: Address,
    args: SetMetadataArgs,
    now: i64,
) -> (r: Result<Vec<Event>, Unit09Error>)
    ensures
        r matches Err(e) ==> first_error(
            if config.admin == admin { None } else { Some(Unit09Error::InvalidAdmin) },
            metadata_error(args.description@, args.tags@),
        ) == Some(e) && *final(metadata) == *old(metadata),
        r is Ok ==> first_error(
            if config.admin == admin { None } else { Some(Unit09Error::InvalidAdmin) },
            metadata_error(args.description@, args.tags@),
        ) is None,
        r matches Ok(events) ==> {
            &&& *final(metadata) matches Some(m) && m.description@ == args.description@ && m.tags@
                == args.tags@ && m.updated_by == admin && m.updated_at == now && m.schema_version
                == CURRENT_SCHEMA_VERSION
            &&& events@.len() == 1
            &&& events@[0] matches Event::GlobalMetadataUpdated(ev) && ev.admin == admin
                && ev.description@ == args.description@ && ev.tags@ == args.tags@ && ev.updated_at
                == now
        },
{
    config.assert_admin(&admin)?;
    let SetMetadataArgs { description, tags } = args;
    let description_copy = description.clone();
    let tags_copy = tags.clone();
    let record = GlobalMetadata::new(description, tags, admin, now)?;
    *metadata = Some(record);
    let events = vec![
        Event::GlobalMetadataUpdated(
            GlobalMetadataUpdated {
                admin,
                description: description_copy,
                tags: tags_copy,
                updated_at: now,
            },
        ),
    ];
    Ok(events)
}

} // verus!
