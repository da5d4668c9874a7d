//! The provisioning surface: starting and stopping a tenant's backend.

use crate::cache_provider::CacheProvider;
use crate::instance_host::{location_text, HostError, Instance};
use crate::routes::{Reply, INTERNAL_SERVER_ERROR, OK};
use vstd::prelude::*;
use vstd::string::*;

verus! {

/// The answer to a request to start a backend: the backend's address, or
/// that it could not be started.
pub fn start_reply(provisioned: &Result<Instance, HostError>) -> (reply: Reply)
    ensures
        match provisioned {
            Ok(instance) => reply.status == OK && reply.body@ == instance.url@,
            Err(_) => reply.status == INTERNAL_SERVER_ERROR && reply.body@
                == "Oh no error baby"@,
        },
{
    match provisioned {
        Ok(instance) => Reply { status: OK, body: instance.url.clone() },
        Err(_) => Reply { status: INTERNAL_SERVER_ERROR, body: "Oh no error baby".to_owned() },
    }
}

/// Answers a request to start a backend, once the orchestrator is done.
/// A backend that was provisioned is published under the tenant, and its
/// address is the answer; a failure publishes nothing.
pub fn start_instance<C: CacheProvider<String>>(
    cache: &mut C,
    username: String,
    provisioned: Result<Instance, HostError>,
) -> (reply: Reply)
    ensures
        match provisioned {
            Ok(instance) => {
                &&& reply.status == OK
                &&& reply.body@ == instance.url@
                &&& final(cache).entries().contains_key(username@)
                &&& final(cache).entries()[username@]@ == location_text(
                    instance.url@,
                    instance.port as nat,
                )
                &&& final(cache).entries() == old(cache).entries().insert(
                    username@,
                    final(cache).entries()[username@],
                )
            },
            Err(_) => {
                &&& reply.status == INTERNAL_SERVER_ERROR
                &&& reply.body@ == "Oh no error baby"@
                &&& final(cache).entries() == old(cache).entries()
            },
        },
{
    let reply = start_reply(&provisioned);
    match provisioned {
        Ok(instance) => {
            cache.set(username, instance.get_url_with_port());
        },
        Err(_) => {},
    }
    reply
}

/// Answers a request to stop a backend, once the orchestrator is done.
pub fn stop_instance(deprovisioned: Result<(), HostError>) -> (reply: Reply)
    ensures
        match deprovisioned {
            Ok(_) => reply.status == OK && reply.body@ == "done"@,
            Err(_) => reply.status == INTERNAL_SERVER_ERROR && reply.body@
                == "Instance could not be stopped"@,
        },
{
    match deprovisioned {
        Ok(_) => Reply { status: OK, body: "done".to_owned() },
        Err(_) => Reply {
            status: INTERNAL_SERVER_ERROR,
            body: "Instance could not be stopped".to_owned(),
        },
    }
}

} // verus!
