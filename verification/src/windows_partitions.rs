//! Partition aggregator: turns the query results gathered for every
//! mounted drive letter into one partition record per letter.
//!
//! A volume that is mounted but cannot currently be read (an empty
//! optical drive, say) reports the host's "device not ready" code on
//! its sub-queries; such a volume is kept in the output as a record
//! marked not ready. Any other error aborts the whole aggregation.

use vstd::prelude::*;

use crate::win_api::DriveType;
use crate::win_api::OsError;
use crate::win_api::SpaceInfo;
use crate::win_api::VolumeRecord;
use crate::win_api::VolumeRecordView;
use crate::win_api::mounted_letters;

verus! {

/// The host's "device not ready" error code: the one failure of a
/// per-volume sub-query that does not abort the aggregation.
pub const ERROR_NOT_READY: u32 = 21;

/// One partition of the final listing.
#[derive(Debug, Clone)]
pub struct WindowsPartition {
    /// Drive letter, one of `'A'..='Z'`.
    pub letter: char,
    /// Whether both per-volume queries succeeded.
    pub ready: bool,
    /// Volume label, empty when unset or not ready.
    pub name: String,
    /// Total capacity in bytes, zero when the space query did not succeed.
    pub size: u64,
    /// Free bytes, zero when the space query did not succeed.
    pub free_space: u64,
    /// Filesystem name, empty when unset or not ready.
    pub file_system_name: String,
    /// Classification of the underlying media.
    pub drive_type: DriveType,
}

/// The mathematical content of a [`WindowsPartition`].
pub struct PartitionView {
    pub letter: char,
    pub ready: bool,
    pub name: Seq<char>,
    pub size: u64,
    pub free_space: u64,
    pub file_system_name: Seq<char>,
    pub drive_type: DriveType,
}

impl View for WindowsPartition {
    type V = PartitionView;

    open spec fn view(&self) -> PartitionView {
        PartitionView {
            letter: self.letter,
            ready: self.ready,
            name: self.name@,
            size: self.size,
            free_space: self.free_space,
            file_system_name: self.file_system_name@,
            drive_type: self.drive_type,
        }
    }
}

/// Everything the host reported about one mounted volume: the outcome
/// of the free-space query and of the metadata query, beside the
/// letter and the media classification, which the host reports without
/// a failure path.
#[derive(Debug)]
pub struct VolumeProbe {
    /// Drive letter the queries were made for.
    pub letter: char,
    /// Media classification of the volume.
    pub drive_type: DriveType,
    /// Outcome of the free-space query.
    pub free_space: Result<SpaceInfo, OsError>,
    /// Outcome of the label/filesystem/serial query.
    pub volume_info: Result<VolumeRecord, OsError>,
}

/// The mathematical content of a [`VolumeProbe`].
pub struct VolumeProbeView {
    pub letter: char,
    pub drive_type: DriveType,
    pub free_space: Result<SpaceInfo, OsError>,
    pub volume_info: Result<VolumeRecordView, OsError>,
}

impl View for VolumeProbe {
    type V = VolumeProbeView;

    open spec fn view(&self) -> VolumeProbeView {
        VolumeProbeView {
            letter: self.letter,
            drive_type: self.drive_type,
            free_space: self.free_space,
            volume_info: match self.volume_info {
                Ok(v) => Ok(v@),
                Err(e) => Err(e),
            },
        }
    }
}

/// The views of a sequence of probes.
pub open spec fn probe_views(s: Seq<VolumeProbe>) -> Seq<VolumeProbeView> {
    s.map_values(|p: VolumeProbe| p@)
}

/// The views of a sequence of partitions.
pub open spec fn partition_views(s: Seq<WindowsPartition>) -> Seq<PartitionView> {
    s.map_values(|p: WindowsPartition| p@)
}

/// The record one probe yields, or the error that aborts the whole
/// aggregation. A sub-query failure with [`ERROR_NOT_READY`] marks the
/// record not ready and leaves its fields at their defaults; any other
/// failure is passed through, the free-space query's first.
pub open spec fn record_of_probe(p: VolumeProbeView) -> Result<PartitionView, OsError> {
    if p.free_space matches Err(e) && e.code != ERROR_NOT_READY {
        Err(p.free_space->Err_0)
    } else if p.volume_info matches Err(e) && e.code != ERROR_NOT_READY {
        Err(p.volume_info->Err_0)
    } else {
        Ok(PartitionView {
            letter: p.letter,
            ready: p.free_space is Ok && p.volume_info is Ok,
            name: match p.volume_info {
                Ok(v) => v.name,
                Err(_) => Seq::empty(),
            },
            size: match p.free_space {
                Ok(s) => s.total_bytes,
                Err(_) => 0,
            },
            free_space: match p.free_space {
                Ok(s) => s.total_free_bytes,
                Err(_) => 0,
            },
            file_system_name: match p.volume_info {
                Ok(v) => v.file_system_name,
                Err(_) => Seq::empty(),
            },
            drive_type: p.drive_type,
        })
    }
}

/// The full aggregation over a sequence of probes, in order: the
/// records of all probes, or the first aborting error.
pub open spec fn partitions_of_probes(ps: Seq<VolumeProbeView>) -> Result<
    Seq<PartitionView>,
    OsError,
>
    decreases ps.len(),
{
    if ps.len() == 0 {
        Ok(Seq::empty())
    } else {
        match record_of_probe(ps[0]) {
            Ok(rec) => match partitions_of_probes(ps.drop_first()) {
                Ok(rest) => Ok(seq![rec] + rest),
                Err(e) => Err(e),
            },
            Err(e) => Err(e),
        }
    }
}

proof fn lemma_partitions_unfold_at(ps: Seq<VolumeProbeView>, i: int)
    requires
        0 <= i < ps.len(),
    ensures
        partitions_of_probes(ps.skip(i)) == (match record_of_probe(ps[i]) {
            Ok(rec) => match partitions_of_probes(ps.skip(i + 1)) {
                Ok(rest) => Ok::<Seq<PartitionView>, OsError>(seq![rec] + rest),
                Err(e) => Err(e),
            },
            Err(e) => Err(e),
        }),
{
    assert(ps.skip(i)[0] == ps[i]);
    assert(ps.skip(i).drop_first() =~= ps.skip(i + 1));
}

/// One record per probe, none dropped silently: a successful
/// aggregation has exactly as many records as probes, and the record
/// at each position keeps its probe's letter.
pub proof fn lemma_one_record_per_probe(ps: Seq<VolumeProbeView>)
    ensures
        partitions_of_probes(ps) matches Ok(recs) ==> recs.len() == ps.len() && (forall|i: int|
            0 <= i < ps.len() ==> (#[trigger] recs[i]).letter == ps[i].letter),
    decreases ps.len(),
{
    if ps.len() > 0 {
        lemma_one_record_per_probe(ps.drop_first());
        match record_of_probe(ps[0]) {
            Ok(rec) => {
                match partitions_of_probes(ps.drop_first()) {
                    Ok(rest) => {
                        assert forall|i: int| 0 <= i < ps.len() implies (#[trigger] (seq![rec]
                            + rest)[i]).letter == ps[i].letter by {
                            if i > 0 {
                                assert((seq![rec] + rest)[i] == rest[i - 1]);
                                assert(ps.drop_first()[i - 1] == ps[i]);
                            }
                        }
                    },
                    Err(_) => {},
                }
            },
            Err(_) => {},
        }
    }
}

/// A successful aggregation over one probe per mounted letter yields
/// one record per mounted letter, and so never more than 26 records.
pub proof fn lemma_partition_count(mask: u32, ps: Seq<VolumeProbeView>)
    requires
        ps.len() == mounted_letters(mask).len(),
    ensures
        partitions_of_probes(ps) matches Ok(recs) ==> recs.len() == mounted_letters(mask).len()
            && recs.len() <= 26,
{
    crate::win_api::lemma_mounted_letters_sound(mask);
    lemma_one_record_per_probe(ps);
}

/// A record marked not ready reports zero sizes. The aggregation
/// itself allows one exception: a volume whose free-space query
/// succeeded with nonzero sizes while its metadata query failed as not
/// ready keeps the sizes it reported, so the hypothesis leaves that
/// probe shape out.
pub proof fn lemma_not_ready_sizes_zero(p: VolumeProbeView)
    requires
        (p.volume_info matches Err(e) && p.free_space is Ok && e.code == ERROR_NOT_READY) ==> (
        p.free_space->Ok_0.total_bytes == 0 && p.free_space->Ok_0.total_free_bytes == 0),
    ensures
        record_of_probe(p) matches Ok(rec) ==> (!rec.ready ==> rec.size == 0 && rec.free_space
            == 0),
{
}

/// Over a whole aggregation: every record marked not ready reports
/// zero sizes, under the per-probe hypothesis of
/// [`lemma_not_ready_sizes_zero`].
pub proof fn lemma_not_ready_sizes_zero_all(ps: Seq<VolumeProbeView>)
    requires
        forall|i: int|
            0 <= i < ps.len() ==> (((#[trigger] ps[i]).volume_info matches Err(e) && ps[i].free_space
            is Ok && e.code == ERROR_NOT_READY) ==> (ps[i].free_space->Ok_0.total_bytes == 0
                && ps[i].free_space->Ok_0.total_free_bytes == 0)),
    ensures
        partitions_of_probes(ps) matches Ok(recs) ==> forall|i: int|
            0 <= i < recs.len() && !(#[trigger] recs[i]).ready ==> recs[i].size == 0
                && recs[i].free_space == 0,
    decreases ps.len(),
{
    if ps.len() > 0 {
        assert forall|i: int|
            0 <= i < ps.drop_first().len() implies (((#[trigger] ps.drop_first()[i]).volume_info
            matches Err(e) && ps.drop_first()[i].free_space is Ok && e.code == ERROR_NOT_READY)
            ==> (ps.drop_first()[i].free_space->Ok_0.total_bytes == 0
            && ps.drop_first()[i].free_space->Ok_0.total_free_bytes == 0)) by {
            assert(ps.drop_first()[i] == ps[i + 1]);
        }
        lemma_not_ready_sizes_zero_all(ps.drop_first());
        lemma_not_ready_sizes_zero(ps[0]);
        match record_of_probe(ps[0]) {
            Ok(rec) => {
                match partitions_of_probes(ps.drop_first()) {
                    Ok(rest) => {
                        assert forall|i: int|
                            0 <= i < (seq![rec] + rest).len() && !(#[trigger] (seq![rec]
                                + rest)[i]).ready implies (seq![rec] + rest)[i].size == 0 && (
                        seq![rec] + rest)[i].free_space == 0 by {
                            if i > 0 {
                                assert((seq![rec] + rest)[i] == rest[i - 1]);
                            }
                        }
                    },
                    Err(_) => {},
                }
            },
            Err(_) => {},
        }
    }
}

/// Assembles one partition record per probed volume, in the probes'
/// order. A sub-query that failed with [`ERROR_NOT_READY`] marks its
/// volume not ready instead of failing the call; any other reported
/// error aborts the whole aggregation, and no partial result is
/// returned. An empty probe list yields an empty listing, not an
/// error.
pub fn get_partitions(volumes: &Vec<VolumeProbe>) -> (r: Result<
    Vec<WindowsPartition>,
    OsError,
>)
    ensures
        match r {
            Ok(parts) => partitions_of_probes(probe_views(volumes@)) == Ok::<
                Seq<PartitionView>,
                OsError,
            >(partition_views(parts@)) && parts@.len() == volumes@.len(),
            Err(e) => partitions_of_probes(probe_views(volumes@)) == Err::<
                Seq<PartitionView>,
                OsError,
            >(e),
        },
{
    let ghost pv = probe_views(volumes@);
    let mut result: Vec<WindowsPartition> = Vec::new();
    let n = volumes.len();
    let mut i: usize = 0;
    proof {
        assert(pv.skip(0) =~= pv);
        match partitions_of_probes(pv) {
            Ok(rest) => {
                assert(partition_views(result@) + rest =~= rest);
            },
            Err(_) => {},
        }
    }
    while i < n
        invariant
            pv == probe_views(volumes@),
            pv.len() == volumes@.len() == n,
            i <= n,
            result@.len() == i,
            match partitions_of_probes(pv.skip(i as int)) {
                Ok(rest) => partitions_of_probes(pv) == Ok::<Seq<PartitionView>, OsError>(
                    partition_views(result@) + rest,
                ),
                Err(e) => partitions_of_probes(pv) == Err::<Seq<PartitionView>, OsError>(e),
            },
        decreases n - i,
    {
        let probe = &volumes[i];
        proof {
            assert(probe@ == pv[i as int]);
        }
        let mut ready = true;
        let mut name = String::new();
        let mut total_size: u64 = 0;
        let mut free_bytes: u64 = 0;
        let mut file_system_name = String::new();
        match &probe.free_space {
            Ok(value) => {
                total_size = value.total_bytes;
                free_bytes = value.total_free_bytes;
            },
            Err(err) => {
                if err.code == ERROR_NOT_READY {
                    ready = false;
                } else {
                    proof {
                        lemma_partitions_unfold_at(pv, i as int);
                    }
                    return Err(*err);
                }
            },
        }
        match &probe.volume_info {
            Ok(value) => {
                name = value.name.clone();
                file_system_name = value.file_system_name.clone();
            },
            Err(err) => {
                if err.code == ERROR_NOT_READY {
                    ready = false;
                } else {
                    proof {
                        lemma_partitions_unfold_at(pv, i as int);
                    }
                    return Err(*err);
                }
            },
        }
        let part = WindowsPartition {
            letter: probe.letter,
            ready,
            name,
            size: total_size,
            free_space: free_bytes,
            file_system_name,
            drive_type: probe.drive_type,
        };
        proof {
            lemma_partitions_unfold_at(pv, i as int);
            assert(record_of_probe(pv[i as int]) == Ok::<PartitionView, OsError>(part@));
        }
        let ghost prev = result@;
        result.push(part);
        proof {
            assert(partition_views(result@) =~= partition_views(prev) + seq![part@]);
            match partitions_of_probes(pv.skip(i as int + 1)) {
                Ok(rest) => {
                    assert(partition_views(prev) + (seq![part@] + rest) =~= partition_views(
                        result@,
                    ) + rest);
                },
                Err(_) => {},
            }
        }
        i = i + 1;
    }
    proof {
        assert(pv.skip(n as int) =~= Seq::<VolumeProbeView>::empty());
        assert(partition_views(result@) + Seq::<PartitionView>::empty() =~= partition_views(
            result@,
        ));
    }
    Ok(result)
}

} // verus!
