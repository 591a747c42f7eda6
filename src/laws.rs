use vstd::prelude::*;
use vstd::std_specs::cmp::PartialEqSpec;

use crate::commitment::Commitment;
use crate::proof_version::RegisteredPoStProof;
use crate::replica::{PrivateReplicaInfo, PublicReplicaInfo, ReplicaInfoView};
use crate::sector_path::SectorPathInfoView;

verus! {

/// `==` on prover-side infos is reflexive, symmetric and transitive.
pub proof fn lemma_private_eq_equivalence(
    a: PrivateReplicaInfo,
    b: PrivateReplicaInfo,
    c: PrivateReplicaInfo,
)
    ensures
        a.eq_spec(&a),
        a.eq_spec(&b) == b.eq_spec(&a),
        a.eq_spec(&b) && b.eq_spec(&c) ==> a.eq_spec(&c),
{
}

/// Two prover-side infos are equal exactly when every field agrees: proof
/// version, commitment, both paths, both flags and both descriptors. So a
/// change of any one field, down to one bit of the commitment, makes them
/// unequal.
pub proof fn lemma_private_eq_exact(a: PrivateReplicaInfo, b: PrivateReplicaInfo)
    ensures
        a.eq_spec(&b) <==> {
            &&& a@.registered_proof == b@.registered_proof
            &&& a@.comm_r == b@.comm_r
            &&& a@.cache_dir == b@.cache_dir
            &&& a@.replica_path == b@.replica_path
            &&& a@.cache_in_oss == b@.cache_in_oss
            &&& a@.replica_in_oss == b@.replica_in_oss
            &&& a@.cache_sector_path_info == b@.cache_sector_path_info
            &&& a@.replica_sector_path_info == b@.replica_sector_path_info
        },
{
}

/// Two prover-side infos built by `new_with_oss_config` from the same
/// arguments are equal.
pub proof fn lemma_same_config_equal(
    a: PrivateReplicaInfo,
    b: PrivateReplicaInfo,
    registered_proof: RegisteredPoStProof,
    replica_path: Seq<char>,
    replica_in_oss: bool,
    replica_sector_path_info: SectorPathInfoView,
    comm_r: Commitment,
    cache_dir: Seq<char>,
    cache_in_oss: bool,
    cache_sector_path_info: SectorPathInfoView,
)
    requires
        a@ == ReplicaInfoView::configured(
            registered_proof,
            replica_path,
            replica_in_oss,
            replica_sector_path_info,
            comm_r,
            cache_dir,
            cache_in_oss,
            cache_sector_path_info,
        ),
        b@ == ReplicaInfoView::configured(
            registered_proof,
            replica_path,
            replica_in_oss,
            replica_sector_path_info,
            comm_r,
            cache_dir,
            cache_in_oss,
            cache_sector_path_info,
        ),
    ensures
        a.eq_spec(&b),
{
}

/// Two prover-side infos built by `new` from the same arguments are equal.
pub proof fn lemma_same_local_equal(
    a: PrivateReplicaInfo,
    b: PrivateReplicaInfo,
    registered_proof: RegisteredPoStProof,
    comm_r: Commitment,
    cache_dir: Seq<char>,
    replica_path: Seq<char>,
)
    requires
        a@ == ReplicaInfoView::local(registered_proof, comm_r, cache_dir, replica_path),
        b@ == ReplicaInfoView::local(registered_proof, comm_r, cache_dir, replica_path),
    ensures
        a.eq_spec(&b),
{
}

/// Equality of verifier-side infos depends on the proof version and the
/// commitment alone, and is an equivalence.
pub proof fn lemma_public_eq_exact(p: PublicReplicaInfo, q: PublicReplicaInfo, s: PublicReplicaInfo)
    ensures
        p.eq_spec(&q) <==> (p@.registered_proof == q@.registered_proof && p@.comm_r == q@.comm_r),
        p.eq_spec(&p),
        p.eq_spec(&q) == q.eq_spec(&p),
        p.eq_spec(&q) && q.eq_spec(&s) ==> p.eq_spec(&s),
{
}

/// Verifier-side infos taken from two prover-side infos that share proof
/// version and commitment are equal, whatever their paths, flags and
/// descriptors.
pub proof fn lemma_public_ignores_location(
    a: PrivateReplicaInfo,
    b: PrivateReplicaInfo,
    pa: PublicReplicaInfo,
    pb: PublicReplicaInfo,
)
    requires
        a@.registered_proof == b@.registered_proof,
        a@.comm_r == b@.comm_r,
        pa@ == a@.public(),
        pb@ == b@.public(),
    ensures
        pa.eq_spec(&pb),
{
}

} // verus!
