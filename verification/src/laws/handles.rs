//! Laws of handles, null places and numbers.

use vstd::prelude::*;

use crate::bytes::z_loaned_bytes_t;
use crate::closure::CClosure;
use crate::closure::DropCall;
use crate::closure::MovedClosure;
use crate::keyexpr::Z_KEYEXPR_INTERSECTION_LEVEL_DISJOINT;
use crate::keyexpr::Z_KEYEXPR_INTERSECTION_LEVEL_EQUALS;
use crate::keyexpr::Z_KEYEXPR_INTERSECTION_LEVEL_INCLUDES;
use crate::keyexpr::Z_KEYEXPR_INTERSECTION_LEVEL_INTERSECTS;
use crate::keyexpr::z_internal_keyexpr_check;
use crate::keyexpr::z_internal_keyexpr_null;
use crate::keyexpr::z_keyexpr_canonize;
use crate::keyexpr::z_keyexpr_canonize_null_terminated;
use crate::keyexpr::z_keyexpr_drop;
use crate::keyexpr::z_keyexpr_from_str;
use crate::keyexpr::z_keyexpr_is_canon;
use crate::keyexpr::z_keyexpr_loan;
use crate::keyexpr::z_loaned_keyexpr_t;
use crate::keyexpr::z_moved_keyexpr_t;
use crate::keyexpr::z_owned_keyexpr_t;
use crate::keyexpr::z_view_keyexpr_from_str;
use crate::liveliness::LivelinessDeclaration;
use crate::liveliness::LivelinessGet;
use crate::liveliness::z_internal_liveliness_token_check;
use crate::liveliness::z_internal_liveliness_token_null;
use crate::liveliness::z_liveliness_declare_subscriber;
use crate::liveliness::z_liveliness_declare_token;
use crate::liveliness::z_liveliness_get;
use crate::liveliness::z_liveliness_get_options_t;
use crate::liveliness::z_liveliness_subscriber_options_t;
use crate::liveliness::z_liveliness_token_loan;
use crate::liveliness::z_liveliness_token_options_t;
use crate::liveliness::z_owned_liveliness_token_t;
use crate::liveliness::z_owned_subscriber_t;
use crate::log::ZC_LOG_SEVERITY_DEBUG;
use crate::log::ZC_LOG_SEVERITY_ERROR;
use crate::log::ZC_LOG_SEVERITY_INFO;
use crate::log::ZC_LOG_SEVERITY_TRACE;
use crate::log::ZC_LOG_SEVERITY_WARN;
use crate::matching::MatchingHold;
use crate::matching::z_internal_matching_listener_check;
use crate::matching::z_internal_matching_listener_null;
use crate::matching::z_owned_matching_listener_t;
use crate::platform::written;
use crate::publisher::PublisherState;
use crate::publisher::ZC_LOCALITY_ANY;
use crate::publisher::ZC_LOCALITY_REMOTE;
use crate::publisher::ZC_LOCALITY_SESSION_LOCAL;
use crate::publisher::Z_CONGESTION_CONTROL_BLOCK;
use crate::publisher::Z_CONGESTION_CONTROL_BLOCK_FIRST;
use crate::publisher::Z_CONGESTION_CONTROL_DROP;
use crate::publisher::Z_PRIORITY_BACKGROUND;
use crate::publisher::Z_PRIORITY_DATA;
use crate::publisher::Z_PRIORITY_REAL_TIME;
use crate::publisher::Z_RELIABILITY_BEST_EFFORT;
use crate::publisher::Z_RELIABILITY_RELIABLE;
use crate::publisher::z_declare_publisher;
use crate::publisher::z_internal_publisher_check;
use crate::publisher::z_internal_publisher_null;
use crate::publisher::z_owned_publisher_t;
use crate::publisher::z_publisher_loan;
use crate::publisher::z_publisher_options_t;
use crate::querier::GetRequest;
use crate::querier::QuerierState;
use crate::querier::z_declare_querier;
use crate::querier::z_internal_querier_check;
use crate::querier::z_internal_querier_null;
use crate::querier::z_loaned_querier_t;
use crate::querier::z_owned_querier_t;
use crate::querier::z_querier_get;
use crate::querier::z_querier_get_options_t;
use crate::querier::z_querier_loan;
use crate::querier::z_querier_options_t;
use crate::query::QueryableDeclaration;
use crate::query::Z_REPLY_KEYEXPR_ANY;
use crate::query::Z_REPLY_KEYEXPR_MATCHING_QUERY;
use crate::query::z_closure_query;
use crate::query::z_closure_query_drop;
use crate::query::z_declare_background_queryable;
use crate::query::z_declare_queryable;
use crate::query::z_internal_query_check;
use crate::query::z_internal_query_null;
use crate::query::z_internal_queryable_check;
use crate::query::z_internal_queryable_null;
use crate::query::z_loaned_query_t;
use crate::query::z_owned_query_t;
use crate::query::z_owned_queryable_t;
use crate::query::z_query_attachment_mut;
use crate::query::z_query_loan;
use crate::query::z_query_loan_mut;
use crate::query::z_query_payload_mut;
use crate::query::z_queryable_loan;
use crate::query::z_queryable_options_t;
use crate::result::ZResult;
use crate::result::Z_CHANNEL_DISCONNECTED;
use crate::result::Z_CHANNEL_NODATA;
use crate::result::Z_EBUSY_MUTEX;
use crate::result::Z_EDESERIALIZE;
use crate::result::Z_EGENERIC;
use crate::result::Z_EINVAL;
use crate::result::Z_EINVAL_MUTEX;
use crate::result::Z_EIO;
use crate::result::Z_ENETWORK;
use crate::result::Z_ENULL;
use crate::result::Z_EPARSE;
use crate::result::Z_ESESSION_CLOSED;
use crate::result::Z_EUNAVAILABLE;
use crate::result::Z_OK;
use crate::sample::Z_SAMPLE_KIND_DELETE;
use crate::sample::Z_SAMPLE_KIND_PUT;
use crate::sample::z_internal_sample_check;
use crate::sample::z_internal_sample_null;
use crate::sample::z_loaned_sample_t;
use crate::sample::z_moved_sample_t;
use crate::sample::z_owned_sample_t;
use crate::sample::z_sample_drop;
use crate::sample::z_sample_payload_mut;
use crate::scout::ScoutRequest;
use crate::scout::Z_WHATAMI_CLIENT;
use crate::scout::Z_WHATAMI_PEER;
use crate::scout::Z_WHATAMI_ROUTER;
use crate::scout::scouted;
use crate::scout::z_hello_drop;
use crate::scout::z_hello_loan;
use crate::scout::z_internal_hello_check;
use crate::scout::z_internal_hello_null;
use crate::scout::z_internal_string_array_check;
use crate::scout::z_internal_string_array_null;
use crate::scout::z_moved_hello_t;
use crate::scout::z_moved_string_array_t;
use crate::scout::z_owned_hello_t;
use crate::scout::z_owned_string_array_t;
use crate::scout::z_scout;
use crate::scout::z_scout_options_t;
use crate::scout::z_string_array_drop;
use crate::scout::z_string_array_loan;
use crate::serde::ze_deserializer_deserialize_int32;
use crate::serde::ze_deserializer_deserialize_uint32;
use crate::serde::ze_deserializer_deserialize_uint64;
use crate::serde::ze_deserializer_t;
use crate::serde::ze_internal_serializer_check;
use crate::serde::ze_internal_serializer_null;
use crate::serde::ze_moved_serializer_t;
use crate::serde::ze_owned_serializer_t;
use crate::serde::ze_serializer_drop;
use crate::serde::ze_serializer_loan;
use crate::serde::ze_serializer_serialize_str;
use crate::serde::ze_serializer_serialize_uint32;
use crate::session::OpenRequest;
use crate::session::z_close;
use crate::session::z_close_options_default;
use crate::session::z_close_options_t;
use crate::session::z_internal_session_check;
use crate::session::z_internal_session_null;
use crate::session::z_loaned_session_t;
use crate::session::z_moved_config_t;
use crate::session::z_open;
use crate::session::z_open_options_t;
use crate::session::z_owned_session_t;
use crate::session::z_session_loan;
use crate::session::zc_concurrent_close_handle_drop;
use crate::session::zc_concurrent_close_handle_wait;
use crate::session::zc_get_last_error;
use crate::session::zc_internal_concurrent_close_handle_check;
use crate::session::zc_internal_concurrent_close_handle_null;
use crate::session::zc_moved_concurrent_close_handle_t;
use crate::session::zc_owned_concurrent_close_handle_t;
use crate::shm::buffer::z_internal_shm_check;
use crate::shm::buffer::z_internal_shm_mut_check;
use crate::shm::buffer::z_internal_shm_mut_null;
use crate::shm::buffer::z_internal_shm_null;
use crate::shm::buffer::z_owned_shm_t;
use crate::shm::buffer::z_shm_loan;
use crate::shm::buffer::z_shm_mut_loan;
use crate::shm::buffer::z_shm_try_mut;
use crate::shm::buffer::z_shm_try_reloan_mut;
use crate::shm::foreign::carried;
use crate::shm::foreign::z_chunk_alloc_result_drop;
use crate::shm::foreign::z_internal_chunk_alloc_result_check;
use crate::shm::foreign::z_internal_chunk_alloc_result_null;
use crate::shm::foreign::z_internal_ptr_in_segment_check;
use crate::shm::foreign::z_internal_ptr_in_segment_null;
use crate::shm::foreign::z_moved_chunk_alloc_result_t;
use crate::shm::foreign::z_moved_ptr_in_segment_t;
use crate::shm::foreign::z_owned_chunk_alloc_result_t;
use crate::shm::foreign::z_owned_ptr_in_segment_t;
use crate::shm::foreign::z_ptr_in_segment_drop;
use crate::shm::foreign::z_ptr_in_segment_loan;
use crate::shm::layout::z_internal_memory_layout_check;
use crate::shm::layout::z_internal_memory_layout_null;
use crate::shm::layout::z_memory_layout_drop;
use crate::shm::layout::z_memory_layout_loan;
use crate::shm::layout::z_moved_memory_layout_t;
use crate::shm::layout::z_owned_memory_layout_t;
use crate::shm::precomputed::z_alloc_layout_drop;
use crate::shm::precomputed::z_alloc_layout_loan;
use crate::shm::precomputed::z_internal_alloc_layout_check;
use crate::shm::precomputed::z_internal_alloc_layout_null;
use crate::shm::precomputed::z_internal_precomputed_layout_check;
use crate::shm::precomputed::z_internal_precomputed_layout_null;
use crate::shm::precomputed::z_moved_alloc_layout_t;
use crate::shm::precomputed::z_moved_precomputed_layout_t;
use crate::shm::precomputed::z_owned_alloc_layout_t;
use crate::shm::precomputed::z_owned_precomputed_layout_t;
use crate::shm::precomputed::z_precomputed_layout_drop;
use crate::shm::precomputed::z_precomputed_layout_loan;
use crate::shm::provider::Backing;
use crate::shm::provider::Provider;
use crate::shm::provider::ShmChunk;
use crate::shm::provider::Z_LAYOUT_ERROR_INCORRECT_LAYOUT_ARGS;
use crate::shm::provider::Z_LAYOUT_ERROR_PROVIDER_INCOMPATIBLE_LAYOUT;
use crate::shm::provider::z_internal_shm_provider_check;
use crate::shm::provider::z_internal_shm_provider_null;
use crate::shm::provider::z_moved_shm_provider_t;
use crate::shm::provider::z_owned_shm_provider_t;
use crate::shm::provider::z_shm_provider_drop;
use crate::shm::provider::z_shm_provider_loan;
use crate::shm::segment::Z_ALLOC_ERROR_NEED_DEFRAGMENT;
use crate::shm::segment::Z_ALLOC_ERROR_OTHER;
use crate::shm::segment::Z_ALLOC_ERROR_OUT_OF_MEMORY;
use crate::slice::SliceRepr;

verus! {

/// The handle of a serializer is live exactly while it holds one, and is borrowed
/// as it is. Nulling or dropping it leaves a gravestone.
pub proof fn lemma_the_handle_of_a_serializer(
    this_: Option<&ze_owned_serializer_t>,
    check: bool,
    nulled: &mut ze_owned_serializer_t,
    dropped: &mut ze_moved_serializer_t,
    loaned: Option<&ze_owned_serializer_t>,
)
    requires
        call_ensures(ze_internal_serializer_check, (this_,), check),
        call_ensures(ze_internal_serializer_null, (Some(nulled),), ()),
        call_ensures(ze_serializer_drop, (Some(dropped),), ()),
        call_ensures(ze_serializer_loan, (this_,), loaned),
    ensures
        check == (this_ is Some && this_->0.state is Some),
        final(nulled).state is None,
        final(dropped)._this.state is None,
        loaned == this_,
{
}

/// The handle of a provider is live exactly while it holds one, and is borrowed as
/// it is. Nulling or dropping it leaves a gravestone.
pub proof fn lemma_the_handle_of_a_provider<S>(
    this_: Option<&z_owned_shm_provider_t<S>>,
    check: bool,
    nulled: &mut z_owned_shm_provider_t<S>,
    dropped: &mut z_moved_shm_provider_t<S>,
    loaned: Option<&z_owned_shm_provider_t<S>>,
)
    requires
        call_ensures(z_internal_shm_provider_check::<S>, (this_,), check),
        call_ensures(z_internal_shm_provider_null::<S>, (Some(nulled),), ()),
        call_ensures(z_shm_provider_drop::<S>, (Some(dropped),), ()),
        call_ensures(z_shm_provider_loan::<S>, (this_,), loaned),
    ensures
        check == (this_ is Some && this_->0.state is Some),
        final(nulled).state is None,
        final(dropped)._this.state is None,
        loaned == this_,
{
}

/// The handle of a memory layout is live exactly while it holds one, and is
/// borrowed as it is. Nulling or dropping it leaves a gravestone.
pub proof fn lemma_the_handle_of_a_memory_layout(
    this_: Option<&z_owned_memory_layout_t>,
    check: bool,
    nulled: &mut z_owned_memory_layout_t,
    dropped: &mut z_moved_memory_layout_t,
    loaned: Option<&z_owned_memory_layout_t>,
)
    requires
        call_ensures(z_internal_memory_layout_check, (this_,), check),
        call_ensures(z_internal_memory_layout_null, (Some(nulled),), ()),
        call_ensures(z_memory_layout_drop, (Some(dropped),), ()),
        call_ensures(z_memory_layout_loan, (this_,), loaned),
    ensures
        check == (this_ is Some && this_->0.state is Some),
        final(nulled).state is None,
        final(dropped)._this.state is None,
        loaned == this_,
{
}

/// The handle of a pointer is live exactly while it holds one, and is borrowed as
/// it is. Nulling or dropping it leaves a gravestone.
pub proof fn lemma_the_handle_of_a_pointer<S>(
    this_: Option<&z_owned_ptr_in_segment_t<S>>,
    check: bool,
    nulled: &mut z_owned_ptr_in_segment_t<S>,
    dropped: &mut z_moved_ptr_in_segment_t<S>,
    loaned: Option<&z_owned_ptr_in_segment_t<S>>,
)
    requires
        call_ensures(z_internal_ptr_in_segment_check::<S>, (this_,), check),
        call_ensures(z_internal_ptr_in_segment_null::<S>, (Some(nulled),), ()),
        call_ensures(z_ptr_in_segment_drop::<S>, (Some(dropped),), ()),
        call_ensures(z_ptr_in_segment_loan::<S>, (this_,), loaned),
    ensures
        check == (this_ is Some && this_->0.state is Some),
        final(nulled).state is None,
        final(dropped)._this.state is None,
        loaned == this_,
{
}

/// The handle of an allocation report is live exactly while it holds one. Nulling
/// or dropping it leaves a gravestone.
pub proof fn lemma_the_handle_of_an_allocation_report<S>(
    this_: Option<&z_owned_chunk_alloc_result_t<S>>,
    check: bool,
    nulled: &mut z_owned_chunk_alloc_result_t<S>,
    dropped: &mut z_moved_chunk_alloc_result_t<S>,
)
    requires
        call_ensures(z_internal_chunk_alloc_result_check::<S>, (this_,), check),
        call_ensures(z_internal_chunk_alloc_result_null::<S>, (Some(nulled),), ()),
        call_ensures(z_chunk_alloc_result_drop::<S>, (Some(dropped),), ()),
    ensures
        check == (this_ is Some && this_->0.state is Some),
        final(nulled).state is None,
        final(dropped)._this.state is None,
{
}

/// The handle of a buffer is live exactly while it holds one, and is borrowed as it
/// is. Nulling it leaves a gravestone.
pub proof fn lemma_the_handle_of_a_buffer<S>(
    this_: Option<&z_owned_shm_t<S>>,
    check: bool,
    nulled: &mut z_owned_shm_t<S>,
    loaned: Option<&z_owned_shm_t<S>>,
)
    requires
        call_ensures(z_internal_shm_check::<S>, (this_,), check),
        call_ensures(z_internal_shm_null::<S>, (Some(nulled),), ()),
        call_ensures(z_shm_loan::<S>, (this_,), loaned),
    ensures
        check == (this_ is Some && this_->0.state is Some),
        final(nulled).state is None,
        loaned == this_,
{
}

/// The handle of a mutable buffer is live exactly while it holds one, and is
/// borrowed as it is. Nulling it leaves a gravestone.
pub proof fn lemma_the_handle_of_a_mutable_buffer<S>(
    this_: Option<&z_owned_shm_t<S>>,
    check: bool,
    nulled: &mut z_owned_shm_t<S>,
    loaned: Option<&z_owned_shm_t<S>>,
)
    requires
        call_ensures(z_internal_shm_mut_check::<S>, (this_,), check),
        call_ensures(z_internal_shm_mut_null::<S>, (Some(nulled),), ()),
        call_ensures(z_shm_mut_loan::<S>, (this_,), loaned),
    ensures
        check == (this_ is Some && this_->0.state is Some),
        final(nulled).state is None,
        loaned == this_,
{
}

/// The handle of a bound layout is live exactly while it holds one, and is borrowed
/// as it is. Nulling or dropping it leaves a gravestone.
pub proof fn lemma_the_handle_of_a_bound_layout<S>(
    this_: Option<&z_owned_precomputed_layout_t<S>>,
    check: bool,
    nulled: &mut z_owned_precomputed_layout_t<S>,
    dropped: &mut z_moved_precomputed_layout_t<S>,
    loaned: Option<&z_owned_precomputed_layout_t<S>>,
)
    requires
        call_ensures(z_internal_precomputed_layout_check::<S>, (this_,), check),
        call_ensures(z_internal_precomputed_layout_null::<S>, (Some(nulled),), ()),
        call_ensures(z_precomputed_layout_drop::<S>, (Some(dropped),), ()),
        call_ensures(z_precomputed_layout_loan::<S>, (this_,), loaned),
    ensures
        check == (this_ is Some && this_->0.state is Some),
        final(nulled).state is None,
        final(dropped)._this.state is None,
        loaned == this_,
{
}

/// The handle of an older bound layout is live exactly while it holds one, and is
/// borrowed as it is. Nulling or dropping it leaves a gravestone.
pub proof fn lemma_the_handle_of_an_older_bound_layout<S>(
    this_: Option<&z_owned_alloc_layout_t<S>>,
    check: bool,
    nulled: &mut z_owned_alloc_layout_t<S>,
    dropped: &mut z_moved_alloc_layout_t<S>,
    loaned: Option<&z_owned_alloc_layout_t<S>>,
)
    requires
        call_ensures(z_internal_alloc_layout_check::<S>, (this_,), check),
        call_ensures(z_internal_alloc_layout_null::<S>, (Some(nulled),), ()),
        call_ensures(z_alloc_layout_drop::<S>, (Some(dropped),), ()),
        call_ensures(z_alloc_layout_loan::<S>, (this_,), loaned),
    ensures
        check == (this_ is Some && this_->0.state is Some),
        final(nulled).state is None,
        final(dropped)._this.state is None,
        loaned == this_,
{
}

/// The handle of a querier is live exactly while it holds one, and is borrowed as
/// it is. Nulling it leaves a gravestone.
pub proof fn lemma_the_handle_of_a_querier(
    this_: Option<&z_owned_querier_t>,
    check: bool,
    nulled: &mut z_owned_querier_t,
    loaned: Option<&z_owned_querier_t>,
)
    requires
        call_ensures(z_internal_querier_check, (this_,), check),
        call_ensures(z_internal_querier_null, (Some(nulled),), ()),
        call_ensures(z_querier_loan, (this_,), loaned),
    ensures
        check == (this_ is Some && this_->0.state is Some),
        final(nulled).state is None,
        loaned == this_,
{
}

/// The handle of a string array is live exactly while it holds one, and is borrowed
/// as it is. Nulling or dropping it leaves a gravestone.
pub proof fn lemma_the_handle_of_a_string_array(
    this_: Option<&z_owned_string_array_t>,
    check: bool,
    nulled: &mut z_owned_string_array_t,
    dropped: &mut z_moved_string_array_t,
    loaned: Option<&z_owned_string_array_t>,
)
    requires
        call_ensures(z_internal_string_array_check, (this_,), check),
        call_ensures(z_internal_string_array_null, (Some(nulled),), ()),
        call_ensures(z_string_array_drop, (Some(dropped),), ()),
        call_ensures(z_string_array_loan, (this_,), loaned),
    ensures
        check == (this_ is Some && this_->0.state is Some),
        final(nulled).state is None,
        final(dropped)._this.state is None,
        loaned == this_,
{
}

/// The handle of a hello is live exactly while it holds one, and is borrowed as it
/// is. Nulling or dropping it leaves a gravestone.
pub proof fn lemma_the_handle_of_a_hello(
    this_: Option<&z_owned_hello_t>,
    check: bool,
    nulled: &mut z_owned_hello_t,
    dropped: &mut z_moved_hello_t,
    loaned: Option<&z_owned_hello_t>,
)
    requires
        call_ensures(z_internal_hello_check, (this_,), check),
        call_ensures(z_internal_hello_null, (Some(nulled),), ()),
        call_ensures(z_hello_drop, (Some(dropped),), ()),
        call_ensures(z_hello_loan, (this_,), loaned),
    ensures
        check == (this_ is Some && this_->0.state is Some),
        final(nulled).state is None,
        final(dropped)._this.state is None,
        loaned == this_,
{
}

/// The handle of a token is live exactly while it holds one, and is borrowed as it
/// is. Nulling it leaves a gravestone.
pub proof fn lemma_the_handle_of_a_token(
    this_: Option<&z_owned_liveliness_token_t>,
    check: bool,
    nulled: &mut z_owned_liveliness_token_t,
    loaned: Option<&z_owned_liveliness_token_t>,
)
    requires
        call_ensures(z_internal_liveliness_token_check, (this_,), check),
        call_ensures(z_internal_liveliness_token_null, (Some(nulled),), ()),
        call_ensures(z_liveliness_token_loan, (this_,), loaned),
    ensures
        check == (this_ is Some && this_->0.state is Some),
        final(nulled).state is None,
        loaned == this_,
{
}

/// The handle of a listener is live exactly while it holds one. Nulling it leaves a
/// gravestone.
pub proof fn lemma_the_handle_of_a_listener(
    this_: Option<&z_owned_matching_listener_t>,
    check: bool,
    nulled: &mut z_owned_matching_listener_t,
)
    requires
        call_ensures(z_internal_matching_listener_check, (this_,), check),
        call_ensures(z_internal_matching_listener_null, (Some(nulled),), ()),
    ensures
        check == (this_ is Some && this_->0.state is Some),
        final(nulled).state is None,
{
}

/// The handle of a keyexpr is live exactly while it holds one, and is borrowed as
/// it is. Nulling or dropping it leaves a gravestone.
pub proof fn lemma_the_handle_of_a_keyexpr(
    this_: Option<&z_owned_keyexpr_t>,
    check: bool,
    nulled: &mut z_owned_keyexpr_t,
    dropped: &mut z_moved_keyexpr_t,
    loaned: Option<&z_owned_keyexpr_t>,
)
    requires
        call_ensures(z_internal_keyexpr_check, (this_,), check),
        call_ensures(z_internal_keyexpr_null, (Some(nulled),), ()),
        call_ensures(z_keyexpr_drop, (Some(dropped),), ()),
        call_ensures(z_keyexpr_loan, (this_,), loaned),
    ensures
        check == (this_ is Some && this_->0.state is Some),
        final(nulled).state is None,
        final(dropped)._this.state is None,
        loaned == this_,
{
}

/// The handle of a queryable is live exactly while it holds one, and is borrowed as
/// it is. Nulling it leaves a gravestone.
pub proof fn lemma_the_handle_of_a_queryable(
    this_: Option<&z_owned_queryable_t>,
    check: bool,
    nulled: &mut z_owned_queryable_t,
    loaned: Option<&z_owned_queryable_t>,
)
    requires
        call_ensures(z_internal_queryable_check, (this_,), check),
        call_ensures(z_internal_queryable_null, (Some(nulled),), ()),
        call_ensures(z_queryable_loan, (this_,), loaned),
    ensures
        check == (this_ is Some && this_->0.state is Some),
        final(nulled).state is None,
        loaned == this_,
{
}

/// The handle of a query is live exactly while it holds one. Nulling it leaves a
/// gravestone.
pub proof fn lemma_the_handle_of_a_query(
    this_: Option<&z_owned_query_t>,
    check: bool,
    nulled: &mut z_owned_query_t,
)
    requires
        call_ensures(z_internal_query_check, (this_,), check),
        call_ensures(z_internal_query_null, (Some(nulled),), ()),
    ensures
        check == (this_ is Some && this_->0.state is Some),
        final(nulled).state is None,
{
}

/// The handle of a sample is live exactly while it holds one. Nulling or dropping
/// it leaves a gravestone.
pub proof fn lemma_the_handle_of_a_sample(
    this_: Option<&z_owned_sample_t>,
    check: bool,
    nulled: &mut z_owned_sample_t,
    dropped: &mut z_moved_sample_t,
)
    requires
        call_ensures(z_internal_sample_check, (this_,), check),
        call_ensures(z_internal_sample_null, (Some(nulled),), ()),
        call_ensures(z_sample_drop, (Some(dropped),), ()),
    ensures
        check == (this_ is Some && this_->0.state is Some),
        final(nulled).state is None,
        final(dropped)._this.state is None,
{
}

/// The handle of a publisher is live exactly while it holds one, and is borrowed as
/// it is. Nulling it leaves a gravestone.
pub proof fn lemma_the_handle_of_a_publisher(
    this_: Option<&z_owned_publisher_t>,
    check: bool,
    nulled: &mut z_owned_publisher_t,
    loaned: Option<&z_owned_publisher_t>,
)
    requires
        call_ensures(z_internal_publisher_check, (this_,), check),
        call_ensures(z_internal_publisher_null, (Some(nulled),), ()),
        call_ensures(z_publisher_loan, (this_,), loaned),
    ensures
        check == (this_ is Some && this_->0.state is Some),
        final(nulled).state is None,
        loaned == this_,
{
}

/// The handle of a session is live exactly while it holds one, and is borrowed as
/// it is. Nulling it leaves a gravestone.
pub proof fn lemma_the_handle_of_a_session(
    this_: Option<&z_owned_session_t>,
    check: bool,
    nulled: &mut z_owned_session_t,
    loaned: Option<&z_owned_session_t>,
)
    requires
        call_ensures(z_internal_session_check, (this_,), check),
        call_ensures(z_internal_session_null, (Some(nulled),), ()),
        call_ensures(z_session_loan, (this_,), loaned),
    ensures
        check == (this_ is Some && this_->0.state is Some),
        final(nulled).state is None,
        loaned == this_,
{
}

/// The handle of a close is live exactly while it holds one. Nulling or dropping it
/// leaves a gravestone.
pub proof fn lemma_the_handle_of_a_close(
    this_: Option<&zc_owned_concurrent_close_handle_t>,
    check: bool,
    nulled: &mut zc_owned_concurrent_close_handle_t,
    dropped: &mut zc_moved_concurrent_close_handle_t,
)
    requires
        call_ensures(zc_internal_concurrent_close_handle_check, (this_,), check),
        call_ensures(zc_internal_concurrent_close_handle_null, (Some(nulled),), ()),
        call_ensures(zc_concurrent_close_handle_drop, (Some(dropped),), ()),
    ensures
        check == (this_ is Some && this_->0.state is Some),
        final(nulled).state is None,
        final(dropped)._this.state is None,
{
}

/// Null places are refused and nothing else is touched: what could not be declared
/// leaves its options, its callback and its slot as they were.
pub proof fn lemma_a_declaration_without_a_place_is_refused<
    O: Fn(&str) -> bool,
    Q: FnOnce(QueryableDeclaration) -> u64,
    T: FnOnce(u64, String) -> Option<u64>,
    L: FnOnce(LivelinessDeclaration) -> u64,
>(
    session: Option<&z_loaned_session_t>,
    key_expr: Option<&z_loaned_keyexpr_t>,
    publisher_options: &mut z_publisher_options_t,
    querier_options: Option<&z_querier_options_t>,
    queryable_options: Option<&z_queryable_options_t>,
    token_options: Option<&z_liveliness_token_options_t>,
    subscriber_options: Option<&z_liveliness_subscriber_options_t>,
    outbound: &O,
    queryable: Q,
    token: T,
    subscriber: L,
    callback: &mut MovedClosure,
    other: &mut MovedClosure,
    codes: (ZResult, ZResult, (ZResult, Option<DropCall>), ZResult, (ZResult, Option<DropCall>)),
)
    requires
        call_ensures(
            z_declare_publisher::<O>,
            (session, None, key_expr, Some(publisher_options), outbound),
            codes.0,
        ),
        call_ensures(
            z_declare_querier::<O>,
            (session, None, key_expr, querier_options, outbound),
            codes.1,
        ),
        call_ensures(
            z_declare_queryable::<O, Q>,
            (session, None, key_expr, Some(callback), queryable_options, outbound, queryable),
            codes.2,
        ),
        call_ensures(
            z_liveliness_declare_token::<O, T>,
            (session, None, key_expr, token_options, outbound, token),
            codes.3,
        ),
        call_ensures(
            z_liveliness_declare_subscriber::<O, L>,
            (session, None, key_expr, Some(other), subscriber_options, outbound, subscriber),
            codes.4,
        ),
    ensures
        codes.0 == -5 && *final(publisher_options) == *old(publisher_options),
        codes.1 == -5,
        codes.2.0 == -5 && codes.2.1 is None && *final(callback) == *old(callback),
        codes.3 == -5,
        codes.4.0 == -5 && codes.4.1 is None && *final(other) == *old(other),
{
}

/// Without a callback nothing is declared or asked, and the slot and the options stay
/// as they were.
pub proof fn lemma_a_call_without_a_callback_is_refused<
    O: Fn(&str) -> bool,
    Q: FnOnce(QueryableDeclaration) -> u64,
    L: FnOnce(LivelinessDeclaration) -> u64,
    I: FnOnce(GetRequest) -> ZResult,
>(
    session: Option<&z_loaned_session_t>,
    key_expr: Option<&z_loaned_keyexpr_t>,
    queryable: &mut z_owned_queryable_t,
    queryable_options: Option<&z_queryable_options_t>,
    subscriber: &mut z_owned_subscriber_t,
    subscriber_options: Option<&z_liveliness_subscriber_options_t>,
    querier: Option<&z_loaned_querier_t>,
    parameters: Option<&[u8]>,
    get_options: &mut z_querier_get_options_t,
    liveliness_options: Option<&z_liveliness_get_options_t>,
    faces: Vec<u64>,
    outbound: &O,
    declare: Q,
    subscribe: L,
    issue: I,
    q: (ZResult, Option<DropCall>),
    b: (ZResult, Option<DropCall>),
    s: (ZResult, Option<DropCall>),
    g: (ZResult, Option<DropCall>),
    l: LivelinessGet,
)
    requires
        call_ensures(
            z_declare_queryable::<O, Q>,
            (session, Some(queryable), key_expr, None, queryable_options, outbound, declare),
            q,
        ),
        call_ensures(
            z_declare_background_queryable::<O, Q>,
            (session, key_expr, None, queryable_options, outbound, declare),
            b,
        ),
        call_ensures(
            z_liveliness_declare_subscriber::<O, L>,
            (session, Some(subscriber), key_expr, None, subscriber_options, outbound, subscribe),
            s,
        ),
        call_ensures(
            z_querier_get::<I>,
            (querier, parameters, None, Some(get_options), issue),
            g,
        ),
        call_ensures(
            z_liveliness_get::<O>,
            (session, key_expr, None, liveliness_options, &faces, outbound),
            l,
        ),
    ensures
        q.0 == -5 && q.1 is None && *final(queryable) == *old(queryable),
        b.0 == -5 && b.1 is None,
        s.0 == -5 && s.1 is None && *final(subscriber) == *old(subscriber),
        g.0 == -5 && g.1 is None && *final(get_options) == *old(get_options),
        l.code == -5 && l.due is None && l.requests@.len() == 0,
{
}

/// A key expression is not built without a place or without bytes.
pub proof fn lemma_a_keyexpr_without_a_place_is_refused<K: Fn(&str) -> Option<String>>(
    bytes: Option<&[u8]>,
    canon: &K,
    slot: &mut z_owned_keyexpr_t,
    view: &mut z_owned_keyexpr_t,
    buffer: &mut Vec<u8>,
    len: &mut usize,
    n: usize,
    codes: (ZResult, ZResult, ZResult, ZResult, ZResult, ZResult, ZResult),
)
    requires
        call_ensures(z_keyexpr_from_str::<K>, (None, bytes, canon), codes.0),
        call_ensures(z_keyexpr_from_str::<K>, (Some(slot), None, canon), codes.1),
        call_ensures(z_view_keyexpr_from_str::<K>, (Some(view), None, canon), codes.2),
        call_ensures(z_keyexpr_canonize::<K>, (Some(buffer), None, canon), codes.3),
        call_ensures(z_keyexpr_canonize::<K>, (None, Some(len), canon), codes.4),
        call_ensures(z_keyexpr_canonize_null_terminated::<K>, (None, canon), codes.5),
        call_ensures(z_keyexpr_is_canon::<K>, (None, n, canon), codes.6),
    ensures
        codes.0 == -5 && codes.1 == -5 && codes.2 == -5 && codes.3 == -5 && codes.4 == -5
            && codes.5 == -5 && codes.6 == -5,
        final(slot).state is None,
        *final(view) == *old(view),
        *final(buffer) == *old(buffer),
        *final(len) == *old(len),
{
}

/// Nothing is opened without a slot or a configuration, and neither is touched.
pub proof fn lemma_a_session_without_a_place_is_not_opened<
    F: FnOnce(OpenRequest) -> Option<u64>,
>(
    slot: &mut z_owned_session_t,
    config: &mut z_moved_config_t,
    options: Option<&z_open_options_t>,
    open: F,
    a: ZResult,
    b: ZResult,
    close_options: Option<&z_close_options_t>,
    closed: (ZResult, Option<u64>),
)
    requires
        call_ensures(z_open::<F>, (Some(slot), None, options, open), a),
        call_ensures(z_open::<F>, (None, Some(config), options, open), b),
        call_ensures(z_close, (None, close_options), closed),
    ensures
        a == -5 && *final(slot) == *old(slot),
        b == -5 && *final(config) == *old(config),
        closed.0 == -5 && closed.1 is None,
{
}

/// Nothing is scouted without a closure, and the configuration stays.
pub proof fn lemma_a_scout_without_a_closure_is_refused<
    P: Fn(&str) -> Option<(u32, u16)>,
    Z: Fn(&str) -> Option<Vec<u8>>,
    F: FnOnce() -> Vec<u8>,
    R: FnOnce(ScoutRequest),
>(
    config: &mut z_moved_config_t,
    options: Option<&z_scout_options_t>,
    default_locator: &str,
    parse_locator: &P,
    parse_zid: &Z,
    fresh_zid: F,
    run: R,
    r: (ZResult, Option<DropCall>),
)
    requires
        call_ensures(
            z_scout::<P, Z, F, R>,
            (
                Some(config),
                None,
                options,
                default_locator,
                parse_locator,
                parse_zid,
                fresh_zid,
                run,
            ),
            r,
        ),
    ensures
        r.0 == -5 && r.1 is None && *final(config) == *old(config),
{
}

/// Without a serializer, a deserializer or a place for the result nothing is written or
/// read.
pub proof fn lemma_nothing_is_serialized_without_a_place<'a>(
    v: u32,
    de: &mut ze_deserializer_t<'a>,
    out: &mut u32,
    wide_de: &mut ze_deserializer_t<'a>,
    signed_de: &mut ze_deserializer_t<'a>,
    slot: &mut ze_owned_serializer_t,
    codes: (ZResult, ZResult, ZResult, ZResult, ZResult, ZResult),
)
    requires
        call_ensures(ze_serializer_serialize_uint32, (None, v), codes.0),
        call_ensures(ze_deserializer_deserialize_uint32, (Some(de), None), codes.1),
        call_ensures(ze_deserializer_deserialize_uint32, (None, Some(out)), codes.2),
        call_ensures(ze_deserializer_deserialize_uint64, (Some(wide_de), None), codes.3),
        call_ensures(ze_deserializer_deserialize_int32, (Some(signed_de), None), codes.4),
        call_ensures(ze_serializer_serialize_str, (Some(slot), None), codes.5),
    ensures
        codes.0 == -5 && codes.1 == -5 && codes.2 == -5 && codes.3 == -5 && codes.4 == -5
            && codes.5 == -5,
        *final(de) == *old(de),
        *final(out) == *old(out),
        *final(wide_de) == *old(wide_de),
        *final(signed_de) == *old(signed_de),
        *final(slot) == *old(slot),
{
}

/// A query's payload and attachment can be changed in place where they are there and it
/// is bound, and nothing else of it changes. So can a sample's payload.
pub proof fn lemma_a_part_is_changed_in_place(
    query: &mut z_loaned_query_t,
    payload: Option<&mut z_loaned_bytes_t>,
    other: &mut z_loaned_query_t,
    attachment: Option<&mut z_loaned_bytes_t>,
    sample: &mut z_loaned_sample_t,
    part: Option<&mut z_loaned_bytes_t>,
)
    requires
        call_ensures(z_query_payload_mut, (Some(query),), payload),
        call_ensures(z_query_attachment_mut, (Some(other),), attachment),
        call_ensures(z_sample_payload_mut, (Some(sample),), part),
    ensures
        payload is Some == (old(query).bound && old(query).payload is Some),
        payload matches Some(out) ==> *out == old(query).payload->0 && final(query).payload
            == Some(*final(out)) && final(query).attachment == old(query).attachment
            && final(query).replies == old(query).replies && final(query).keyexpr
            == old(query).keyexpr,
        payload is None ==> *final(query) == *old(query),
        attachment is Some == (old(other).bound && old(other).attachment is Some),
        attachment matches Some(out) ==> *out == old(other).attachment->0
            && final(other).attachment == Some(*final(out)) && final(other).payload
            == old(other).payload && final(other).replies == old(other).replies,
        attachment is None ==> *final(other) == *old(other),
        part is Some == old(sample).bound,
        part matches Some(out) ==> *out == old(sample).payload && final(sample).payload
            == *final(out) && final(sample).kind == old(sample).kind && final(sample).attachment
            == old(sample).attachment,
        part is None ==> *final(sample) == *old(sample),
{
}

/// A frozen buffer gives no mutable access, and one that is not frozen gives access to
/// itself.
pub proof fn lemma_only_a_mutable_buffer_is_lent_to_change<S>(
    slot: &mut z_owned_shm_t<S>,
    loaned: Option<&mut z_owned_shm_t<S>>,
    other: &mut z_owned_shm_t<S>,
    reloaned: Option<&mut z_owned_shm_t<S>>,
)
    requires
        call_ensures(z_shm_try_mut::<S>, (Some(slot),), loaned),
        call_ensures(z_shm_try_reloan_mut::<S>, (Some(other),), reloaned),
    ensures
        loaned is Some == (old(slot).state is Some && old(slot).state->0.mutable),
        loaned matches Some(out) ==> *out == *old(slot) && *final(slot) == *final(out),
        loaned is None ==> *final(slot) == *old(slot),
        reloaned is Some == (old(other).state is Some && old(other).state->0.mutable),
        reloaned matches Some(out) ==> *out == *old(other) && *final(other) == *final(out),
        reloaned is None ==> *final(other) == *old(other),
{
}

/// A provider is shared as it is, and may run anywhere where its backing may.
pub proof fn lemma_a_shared_provider_is_the_same<S>(
    provider: Provider<S>,
    other: Provider<S>,
    backing: Backing,
    anywhere: bool,
    chunk: ShmChunk<S>,
    origin: Provider<S>,
)
    requires
        call_ensures(Provider::<S>::share, (&provider,), other),
        call_ensures(Provider::<S>::is_threadsafe, (&provider, &backing), anywhere),
        call_ensures(ShmChunk::<S>::provider, (&chunk,), origin),
    ensures
        other == provider,
        anywhere == (backing is Native || backing->Foreign_0.threadsafe),
        chunk.backing is Native ==> origin == Provider::Native(chunk.backing->Native_segment),
        chunk.backing is Foreign ==> origin == Provider::Foreign(chunk.backing->Foreign_backend),
{
}

/// A closure on queries is written as it is given, and dropping it calls its drop
/// function once.
pub proof fn lemma_a_query_closure_is_built_and_dropped(
    built: &mut CClosure,
    call: Option<usize>,
    drop: Option<usize>,
    context: usize,
    moved: &mut MovedClosure,
    due: Option<DropCall>,
)
    requires
        call_ensures(z_closure_query, (Some(built), call, drop, context), ()),
        call_ensures(z_closure_query_drop, (Some(moved),), due),
    ensures
        final(built).call == call && final(built).drop == drop && final(built).context == context,
        due is Some == old(moved)._this.drop is Some,
        due is Some ==> due->0.drop == old(moved)._this.drop->0 && due->0.context
            == old(moved)._this.context,
        final(moved)._this.call is None && final(moved)._this.drop is None,
{
}

/// An owned query is borrowed as it is, to read it or to change it.
pub proof fn lemma_an_owned_query_is_borrowed_as_it_is(
    this_: Option<&z_owned_query_t>,
    loaned: Option<&z_loaned_query_t>,
    slot: &mut z_owned_query_t,
    lent: Option<&mut z_loaned_query_t>,
)
    requires
        call_ensures(z_query_loan, (this_,), loaned),
        call_ensures(z_query_loan_mut, (Some(slot),), lent),
    ensures
        loaned is Some == (this_ is Some && this_->0.state is Some),
        loaned is Some ==> *loaned->0 == this_->0.state->0,
        lent is Some == old(slot).state is Some,
        lent matches Some(out) ==> *out == old(slot).state->0 && final(slot).state
            == Some(*final(out)),
        lent is None ==> *final(slot) == *old(slot),
{
}

/// A close is over when it returns: there is nothing to wait for, and no error is
/// remembered.
pub proof fn lemma_a_close_is_over_when_it_returns<'a>(
    handle: &mut zc_moved_concurrent_close_handle_t,
    code: ZResult,
    out: &mut SliceRepr<'a>,
    options: &mut z_close_options_t,
)
    requires
        call_ensures(zc_concurrent_close_handle_wait, (Some(handle),), code),
        call_ensures(zc_get_last_error, (Some(out),), ()),
        call_ensures(z_close_options_default, (Some(options),), ()),
    ensures
        code == 0,
        final(handle)._this.state is None,
        *final(out) is Null,
        final(options).internal_timeout_ms == 0,
        final(options).internal_out_concurrent == 0,
{
}

/// A listener that is attached is carried, and the one before it is handed back.
pub proof fn lemma_an_attached_listener_is_carried(
    publisher: &mut PublisherState,
    querier: &mut QuerierState,
    hold: MatchingHold,
    retired: Option<MatchingHold>,
    other: Option<MatchingHold>,
)
    requires
        call_ensures(PublisherState::attach_matching, (publisher, hold), retired),
        call_ensures(QuerierState::attach_matching, (querier, hold), other),
    ensures
        retired == old(publisher).matching,
        final(publisher).matching == Some(hold),
        final(publisher).shared == old(publisher).shared,
        final(publisher).keyexpr == old(publisher).keyexpr,
        other == old(querier).matching,
        final(querier).matching == Some(hold),
        final(querier).shared == old(querier).shared,
        final(querier).keyexpr == old(querier).keyexpr,
{
}

/// The numbers that cross the interface.
pub proof fn lemma_the_constants_have_their_numbers()
    ensures
        Z_OK == 0 && Z_EINVAL == -1 && Z_EPARSE == -2 && Z_EIO == -3 && Z_ENETWORK == -4,
        Z_ENULL == -5 && Z_EUNAVAILABLE == -6 && Z_EDESERIALIZE == -7 && Z_ESESSION_CLOSED == -8,
        Z_CHANNEL_DISCONNECTED == 1 && Z_CHANNEL_NODATA == 2,
        Z_EINVAL_MUTEX == -22 && Z_EBUSY_MUTEX == -16 && Z_EGENERIC == -128,
        Z_PRIORITY_REAL_TIME == 1 && Z_PRIORITY_DATA == 5 && Z_PRIORITY_BACKGROUND == 7,
        Z_CONGESTION_CONTROL_BLOCK == 0 && Z_CONGESTION_CONTROL_DROP == 1,
        Z_CONGESTION_CONTROL_BLOCK_FIRST == 2,
        Z_RELIABILITY_BEST_EFFORT == 0 && Z_RELIABILITY_RELIABLE == 1,
        ZC_LOCALITY_ANY == 0 && ZC_LOCALITY_SESSION_LOCAL == 1 && ZC_LOCALITY_REMOTE == 2,
        Z_WHATAMI_ROUTER == 1 && Z_WHATAMI_PEER == 2 && Z_WHATAMI_CLIENT == 4,
        ZC_LOG_SEVERITY_TRACE == 0 && ZC_LOG_SEVERITY_DEBUG == 1 && ZC_LOG_SEVERITY_INFO == 2,
        ZC_LOG_SEVERITY_WARN == 3 && ZC_LOG_SEVERITY_ERROR == 4,
        Z_KEYEXPR_INTERSECTION_LEVEL_DISJOINT == 0 && Z_KEYEXPR_INTERSECTION_LEVEL_INTERSECTS == 1,
        Z_KEYEXPR_INTERSECTION_LEVEL_INCLUDES == 2 && Z_KEYEXPR_INTERSECTION_LEVEL_EQUALS == 3,
        Z_REPLY_KEYEXPR_ANY == 0 && Z_REPLY_KEYEXPR_MATCHING_QUERY == 1,
        Z_SAMPLE_KIND_PUT == 0 && Z_SAMPLE_KIND_DELETE == 1,
        Z_ALLOC_ERROR_NEED_DEFRAGMENT == 0 && Z_ALLOC_ERROR_OUT_OF_MEMORY == 1,
        Z_ALLOC_ERROR_OTHER == 2,
        Z_LAYOUT_ERROR_INCORRECT_LAYOUT_ARGS == 0,
        Z_LAYOUT_ERROR_PROVIDER_INCOMPATIBLE_LAYOUT == 1,
{
}

} // verus!
