use vstd::prelude::*;

use crate::commitment::{commitments_equal, Commitment};
use crate::proof_version::RegisteredPoStProof;
use crate::sector_path::{PrivateSectorPathInfo, SectorPathInfoView};

verus! {

/// Why an asset location or a batch of replicas cannot be used.
#[derive(Clone, Copy, Debug, PartialEq, Eq, Structural, Hash)]
pub enum ReplicaInfoError {
    /// An asset is marked as held in object storage, but its descriptor does
    /// not name an object (store or key missing). This is a configuration
    /// error of the caller: it is reported, never repaired by falling back to
    /// the local path.
    MissingLocationDescriptor,
    /// Replicas used together in one proof session carry different proof
    /// versions.
    ProofVersionMismatch,
}

/// Where the bytes of one asset are to be read from.
pub enum LocationView {
    Local(Seq<char>),
    Oss(SectorPathInfoView),
}

/// The location of one asset, borrowed from the replica info it was resolved
/// from.
#[derive(Debug)]
pub enum ReplicaLocation<'a> {
    /// On local storage, at this path.
    Local(&'a str),
    /// In object storage, at this descriptor.
    Oss(&'a PrivateSectorPathInfo),
}

impl<'a> View for ReplicaLocation<'a> {
    type V = LocationView;

    open spec fn view(&self) -> LocationView {
        match *self {
            ReplicaLocation::Local(p) => LocationView::Local(p@),
            ReplicaLocation::Oss(d) => LocationView::Oss(d@),
        }
    }
}

/// The location policy for one asset: the origin flag alone chooses between
/// the local path and the object-storage descriptor; a descriptor chosen by
/// the flag must name an object.
pub open spec fn resolve_location(in_oss: bool, path: Seq<char>, info: SectorPathInfoView) -> Result<
    LocationView,
    ReplicaInfoError,
> {
    if !in_oss {
        Ok(LocationView::Local(path))
    } else if info.is_populated() {
        Ok(LocationView::Oss(info))
    } else {
        Err(ReplicaInfoError::MissingLocationDescriptor)
    }
}

/// The model of a resolved location, or the error unchanged.
pub open spec fn location_result_view(r: Result<ReplicaLocation, ReplicaInfoError>) -> Result<
    LocationView,
    ReplicaInfoError,
> {
    match r {
        Ok(l) => Ok(l@),
        Err(e) => Err(e),
    }
}

/// What a prover-side replica info holds.
pub struct ReplicaInfoView {
    pub registered_proof: RegisteredPoStProof,
    pub comm_r: Commitment,
    pub cache_dir: Seq<char>,
    pub replica_path: Seq<char>,
    pub cache_in_oss: bool,
    pub replica_in_oss: bool,
    pub cache_sector_path_info: SectorPathInfoView,
    pub replica_sector_path_info: SectorPathInfoView,
}

/// What a verifier-side replica info holds.
pub struct PublicReplicaInfoView {
    pub registered_proof: RegisteredPoStProof,
    pub comm_r: Commitment,
}

impl ReplicaInfoView {
    /// An info whose cache and replica both lie on local storage.
    pub open spec fn local(
        registered_proof: RegisteredPoStProof,
        comm_r: Commitment,
        cache_dir: Seq<char>,
        replica_path: Seq<char>,
    ) -> ReplicaInfoView {
        ReplicaInfoView {
            registered_proof,
            comm_r,
            cache_dir,
            replica_path,
            cache_in_oss: false,
            replica_in_oss: false,
            cache_sector_path_info: SectorPathInfoView::empty(),
            replica_sector_path_info: SectorPathInfoView::empty(),
        }
    }

    /// An info with the origin of each asset given explicitly.
    pub open spec fn configured(
        registered_proof: RegisteredPoStProof,
        replica_path: Seq<char>,
        replica_in_oss: bool,
        replica_sector_path_info: SectorPathInfoView,
        comm_r: Commitment,
        cache_dir: Seq<char>,
        cache_in_oss: bool,
        cache_sector_path_info: SectorPathInfoView,
    ) -> ReplicaInfoView {
        ReplicaInfoView {
            registered_proof,
            comm_r,
            cache_dir,
            replica_path,
            cache_in_oss,
            replica_in_oss,
            cache_sector_path_info,
            replica_sector_path_info,
        }
    }

    pub open spec fn cache_location(self) -> Result<LocationView, ReplicaInfoError> {
        resolve_location(self.cache_in_oss, self.cache_dir, self.cache_sector_path_info)
    }

    pub open spec fn replica_location(self) -> Result<LocationView, ReplicaInfoError> {
        resolve_location(self.replica_in_oss, self.replica_path, self.replica_sector_path_info)
    }

    /// The part of the info that a verifier may see.
    pub open spec fn public(self) -> PublicReplicaInfoView {
        PublicReplicaInfoView { registered_proof: self.registered_proof, comm_r: self.comm_r }
    }
}

/// The minimal information required about a replica, in order to be able to
/// generate a PoSt over it.
///
/// Each of the two assets, the cache and the replica, lies either on local
/// storage or in object storage, as its own flag says. The value is never
/// changed once built.
#[derive(Clone, Debug, Eq, Hash)]
pub struct PrivateReplicaInfo {
    /// The version of this replica.
    pub(crate) registered_proof: RegisteredPoStProof,
    /// The replica commitment.
    pub(crate) comm_r: Commitment,
    /// Contains sector-specific (e.g. merkle trees) assets.
    pub(crate) cache_dir: String,
    /// Contains the replica.
    pub(crate) replica_path: String,
    /// The cache is stored in object storage.
    pub(crate) cache_in_oss: bool,
    /// The replica is stored in object storage.
    pub(crate) replica_in_oss: bool,
    /// Object-storage location of the cache.
    pub(crate) cache_sector_path_info: PrivateSectorPathInfo,
    /// Object-storage location of the replica.
    pub(crate) replica_sector_path_info: PrivateSectorPathInfo,
}

impl View for PrivateReplicaInfo {
    type V = ReplicaInfoView;

    closed spec fn view(&self) -> ReplicaInfoView {
        ReplicaInfoView {
            registered_proof: self.registered_proof,
            comm_r: self.comm_r,
            cache_dir: self.cache_dir@,
            replica_path: self.replica_path@,
            cache_in_oss: self.cache_in_oss,
            replica_in_oss: self.replica_in_oss,
            cache_sector_path_info: self.cache_sector_path_info@,
            replica_sector_path_info: self.replica_sector_path_info@,
        }
    }
}

impl PartialEq for PrivateReplicaInfo {
    fn eq(&self, other: &PrivateReplicaInfo) -> (r: bool) {
        self.registered_proof == other.registered_proof
            && commitments_equal(&self.comm_r, &other.comm_r)
            && self.cache_dir == other.cache_dir
            && self.replica_path == other.replica_path
            && self.cache_in_oss == other.cache_in_oss
            && self.replica_in_oss == other.replica_in_oss
            && self.cache_sector_path_info == other.cache_sector_path_info
            && self.replica_sector_path_info == other.replica_sector_path_info
    }
}

impl vstd::std_specs::cmp::PartialEqSpecImpl for PrivateReplicaInfo {
    open spec fn obeys_eq_spec() -> bool {
        true
    }

    open spec fn eq_spec(&self, other: &PrivateReplicaInfo) -> bool {
        self@ == other@
    }
}

impl PrivateReplicaInfo {
    /// Builds an info whose cache and replica both lie on local storage; no
    /// object-storage location is set. Nothing is checked on disk.
    pub fn new(
        registered_proof: RegisteredPoStProof,
        comm_r: Commitment,
        cache_dir: String,
        replica_path: String,
    ) -> (r: PrivateReplicaInfo)
        ensures
            r@ == ReplicaInfoView::local(registered_proof, comm_r, cache_dir@, replica_path@),
    {
        PrivateReplicaInfo {
            registered_proof,
            comm_r,
            cache_dir,
            replica_path,
            cache_in_oss: false,
            replica_in_oss: false,
            cache_sector_path_info: PrivateSectorPathInfo::default(),
            replica_sector_path_info: PrivateSectorPathInfo::default(),
        }
    }

    /// Builds an info with the origin of each asset given explicitly. Every
    /// argument is kept as given; a flag that disagrees with its descriptor is
    /// only reported when the location is resolved.
    pub fn new_with_oss_config(
        registered_proof: RegisteredPoStProof,
        replica_path: String,
        replica_in_oss: bool,
        replica_sector_path_info: PrivateSectorPathInfo,
        comm_r: Commitment,
        cache_dir: String,
        cache_in_oss: bool,
        cache_sector_path_info: PrivateSectorPathInfo,
    ) -> (r: PrivateReplicaInfo)
        ensures
            r@ == ReplicaInfoView::configured(
                registered_proof,
                replica_path@,
                replica_in_oss,
                replica_sector_path_info@,
                comm_r,
                cache_dir@,
                cache_in_oss,
                cache_sector_path_info@,
            ),
    {
        PrivateReplicaInfo {
            registered_proof,
            comm_r,
            cache_dir,
            replica_path,
            cache_in_oss,
            replica_in_oss,
            cache_sector_path_info,
            replica_sector_path_info,
        }
    }

    /// Where the cache is to be read from: the local directory when its flag
    /// is off, else its object-storage descriptor, which must name an object.
    pub fn cache_location(&self) -> (r: Result<ReplicaLocation<'_>, ReplicaInfoError>)
        ensures
            location_result_view(r) == self@.cache_location(),
    {
        resolve(self.cache_in_oss, &self.cache_dir, &self.cache_sector_path_info)
    }

    /// Where the replica is to be read from: the local path when its flag is
    /// off, else its object-storage descriptor, which must name an object.
    pub fn replica_location(&self) -> (r: Result<ReplicaLocation<'_>, ReplicaInfoError>)
        ensures
            location_result_view(r) == self@.replica_location(),
    {
        resolve(self.replica_in_oss, &self.replica_path, &self.replica_sector_path_info)
    }

    /// The verifier's view of this replica: proof version and commitment.
    pub fn to_public(&self) -> (r: PublicReplicaInfo)
        ensures
            r@ == self@.public(),
    {
        PublicReplicaInfo::new(self.registered_proof, self.comm_r)
    }

    /// Checks that all replicas of one proof session share one proof version.
    pub fn check_proof_versions(infos: &[PrivateReplicaInfo]) -> (r: Result<(), ReplicaInfoError>)
        ensures
            r is Ok <==> forall|i: int|
                0 <= i < infos@.len() ==> #[trigger] infos@[i]@.registered_proof
                    == infos@[0]@.registered_proof,
            r is Err ==> r == Err::<(), ReplicaInfoError>(ReplicaInfoError::ProofVersionMismatch),
    {
        if infos.len() == 0 {
            return Ok(());
        }
        let first = infos[0].registered_proof;
        let mut i: usize = 1;
        while i < infos.len()
            invariant
                1 <= i <= infos@.len(),
                first == infos@[0]@.registered_proof,
                forall|j: int| 0 <= j < i ==> #[trigger] infos@[j]@.registered_proof == first,
            decreases infos@.len() - i,
        {
            if infos[i].registered_proof != first {
                assert(infos@[i as int]@.registered_proof != infos@[0]@.registered_proof);
                return Err(ReplicaInfoError::ProofVersionMismatch);
            }
            i = i + 1;
        }
        Ok(())
    }

    pub fn registered_proof(&self) -> (r: RegisteredPoStProof)
        ensures
            r == self@.registered_proof,
    {
        self.registered_proof
    }

    pub fn comm_r(&self) -> (r: Commitment)
        ensures
            r == self@.comm_r,
    {
        self.comm_r
    }

    pub fn cache_dir(&self) -> (r: &str)
        ensures
            r@ == self@.cache_dir,
    {
        self.cache_dir.as_str()
    }

    pub fn replica_path(&self) -> (r: &str)
        ensures
            r@ == self@.replica_path,
    {
        self.replica_path.as_str()
    }

    pub fn cache_in_oss(&self) -> (r: bool)
        ensures
            r == self@.cache_in_oss,
    {
        self.cache_in_oss
    }

    pub fn replica_in_oss(&self) -> (r: bool)
        ensures
            r == self@.replica_in_oss,
    {
        self.replica_in_oss
    }

    pub fn cache_sector_path_info(&self) -> (r: &PrivateSectorPathInfo)
        ensures
            r@ == self@.cache_sector_path_info,
    {
        &self.cache_sector_path_info
    }

    pub fn replica_sector_path_info(&self) -> (r: &PrivateSectorPathInfo)
        ensures
            r@ == self@.replica_sector_path_info,
    {
        &self.replica_sector_path_info
    }
}

fn resolve<'a>(in_oss: bool, path: &'a String, info: &'a PrivateSectorPathInfo) -> (r: Result<
    ReplicaLocation<'a>,
    ReplicaInfoError,
>)
    ensures
        location_result_view(r) == resolve_location(in_oss, path@, info@),
{
    if !in_oss {
        Ok(ReplicaLocation::Local(path.as_str()))
    } else if info.is_populated() {
        Ok(ReplicaLocation::Oss(info))
    } else {
        Err(ReplicaInfoError::MissingLocationDescriptor)
    }
}

/// What a verifier is given about a replica: its proof version and its
/// commitment, and no location of any kind.
#[derive(Clone, Copy, Debug, Eq, Hash)]
pub struct PublicReplicaInfo {
    /// The version of this replica.
    pub(crate) registered_proof: RegisteredPoStProof,
    /// The replica commitment.
    pub(crate) comm_r: Commitment,
}

impl View for PublicReplicaInfo {
    type V = PublicReplicaInfoView;

    closed spec fn view(&self) -> PublicReplicaInfoView {
        PublicReplicaInfoView { registered_proof: self.registered_proof, comm_r: self.comm_r }
    }
}

impl PartialEq for PublicReplicaInfo {
    fn eq(&self, other: &PublicReplicaInfo) -> (r: bool) {
        self.registered_proof == other.registered_proof && commitments_equal(
            &self.comm_r,
            &other.comm_r,
        )
    }
}

impl vstd::std_specs::cmp::PartialEqSpecImpl for PublicReplicaInfo {
    open spec fn obeys_eq_spec() -> bool {
        true
    }

    open spec fn eq_spec(&self, other: &PublicReplicaInfo) -> bool {
        self@ == other@
    }
}

impl PublicReplicaInfo {
    pub fn new(registered_proof: RegisteredPoStProof, comm_r: Commitment) -> (r: PublicReplicaInfo)
        ensures
            r@ == (PublicReplicaInfoView { registered_proof, comm_r }),
    {
        PublicReplicaInfo { registered_proof, comm_r }
    }

    /// Checks that all replicas given to one verification share one proof
    /// version.
    pub fn check_proof_versions(infos: &[PublicReplicaInfo]) -> (r: Result<(), ReplicaInfoError>)
        ensures
            r is Ok <==> forall|i: int|
                0 <= i < infos@.len() ==> #[trigger] infos@[i]@.registered_proof
                    == infos@[0]@.registered_proof,
            r is Err ==> r == Err::<(), ReplicaInfoError>(ReplicaInfoError::ProofVersionMismatch),
    {
        if infos.len() == 0 {
            return Ok(());
        }
        let first = infos[0].registered_proof;
        let mut i: usize = 1;
        while i < infos.len()
            invariant
                1 <= i <= infos@.len(),
                first == infos@[0]@.registered_proof,
                forall|j: int| 0 <= j < i ==> #[trigger] infos@[j]@.registered_proof == first,
            decreases infos@.len() - i,
        {
            if infos[i].registered_proof != first {
                assert(infos@[i as int]@.registered_proof != infos@[0]@.registered_proof);
                return Err(ReplicaInfoError::ProofVersionMismatch);
            }
            i = i + 1;
        }
        Ok(())
    }

    pub fn registered_proof(&self) -> (r: RegisteredPoStProof)
        ensures
            r == self@.registered_proof,
    {
        self.registered_proof
    }

    pub fn comm_r(&self) -> (r: Commitment)
        ensures
            r == self@.comm_r,
    {
        self.comm_r
    }
}

} // verus!
