use vstd::prelude::*;
use crate::cas::chunking::{chunk_count, chunk_slice, chunk_slices, min_int, Chunker, DEFAULT_CHUNK_SIZE};
use crate::cas::crypto::{encrypt, open_blob, sealed_blob, EncryptionKey};
use crate::cas::hash::{blake3_digest, hex_decode_seq, hex_encode_seq, lemma_hex_round_trip_text, ContentId};

verus! {

pub const MANIFEST_VERSION: u32 = 1;

/// One volume's raw plaintext bytes, ready to chunk and store.
pub struct SnapshotInput<'a> {
    pub pvc_name: &'a str,
    pub data: &'a [u8],
}

/// One PVC's contribution to a snapshot: its chunk ids (hex, plaintext hashes, in stream
/// order) and its total plaintext size.
#[derive(Clone, Debug)]
pub struct VolumeSnapshot {
    pub pvc_name: String,
    pub bytes: u64,
    pub chunk_ids: Vec<String>,
}

/// Versioned manifest for one backup run.
#[derive(Clone, Debug)]
pub struct SnapshotManifest {
    pub version: u32,
    pub created_at: String,
    pub encrypted: bool,
    pub volumes: Vec<VolumeSnapshot>,
    pub total_bytes: u64,
}

/// One object to store: its id and the bytes to keep under it.
#[derive(Clone, Debug)]
pub struct PendingPut {
    pub id: ContentId,
    pub payload: Vec<u8>,
}

/// Everything storing one volume takes: the objects to put, in order, and the volume's entry
/// in the manifest.
#[derive(Clone, Debug)]
pub struct VolumeIngest {
    pub puts: Vec<PendingPut>,
    pub snapshot: VolumeSnapshot,
}

/// The plaintext of chunk `i` of a volume, at the default chunk size.
pub open spec fn volume_chunk(data: Seq<u8>, i: int) -> Seq<u8> {
    chunk_slice(data, DEFAULT_CHUNK_SIZE as nat, i)
}

/// `payload` is what is stored for chunk `plain`: the plaintext itself without a key, or
/// its sealing under the key (which opens back to the plaintext).
pub open spec fn stored_payload(key: Option<Seq<u8>>, plain: Seq<u8>, payload: Seq<u8>) -> bool {
    match key {
        None => payload == plain,
        Some(k) => sealed_blob(k, plain, payload) && open_blob(k, payload) == Some(plain),
    }
}

pub open spec fn key_view(key: Option<&EncryptionKey>) -> Option<Seq<u8>> {
    match key {
        Some(k) => Some(k@),
        None => None,
    }
}

/// `ingest` is the plan for storing `data` as volume `pvc_name`: one put per chunk, keyed
/// by the chunk's plaintext hash, and a manifest entry listing those ids in order.
pub open spec fn ingest_plan_of(
    key: Option<Seq<u8>>,
    pvc_name: Seq<char>,
    data: Seq<u8>,
    puts: Seq<PendingPut>,
    snapshot: VolumeSnapshot,
) -> bool {
    let count = chunk_count(data.len(), DEFAULT_CHUNK_SIZE as nat);
    &&& snapshot.pvc_name@ == pvc_name
    &&& snapshot.bytes == data.len()
    &&& puts.len() == count
    &&& snapshot.chunk_ids.len() == count
    &&& forall|i: int|
        0 <= i < count ==> {
            &&& (#[trigger] puts[i]).id@ == blake3_digest(volume_chunk(data, i))
            &&& stored_payload(key, volume_chunk(data, i), puts[i].payload@)
            &&& snapshot.chunk_ids[i]@ == hex_encode_seq(puts[i].id@)
        }
}

/// Chunk `data`, hash each chunk over its plaintext and, with a key, seal it; the chunk id is
/// always the plaintext hash, so blobs at rest are ciphertext whenever a key is given.
pub fn plan_volume_ingest(key: Option<&EncryptionKey>, pvc_name: &str, data: &[u8]) -> (r:
    VolumeIngest)
    ensures
        ingest_plan_of(key_view(key), pvc_name@, data@, r.puts@, r.snapshot),
{
    let chunker = Chunker::default();
    let chunks = chunker.chunk(data);
    let n = data.len();
    let ghost size = DEFAULT_CHUNK_SIZE as nat;
    let ghost count = chunk_count(data@.len(), size);
    let mut puts: Vec<PendingPut> = Vec::new();
    let mut chunk_ids: Vec<String> = Vec::new();
    let mut bytes: u64 = 0;
    let mut i: usize = 0;
    while i < chunks.len()
        invariant
            chunks.len() == count,
            n == data@.len(),
            count == chunk_count(data@.len(), size),
            size == DEFAULT_CHUNK_SIZE,
            forall|k: int|
                0 <= k < chunks.len() ==> {
                    &&& (#[trigger] chunks[k]).data@ == chunk_slice(data@, size, k)
                    &&& chunks[k].id@ == blake3_digest(chunks[k].data@)
                },
            i <= chunks.len(),
            puts.len() == i,
            chunk_ids.len() == i,
            bytes == min_int(i * size, data@.len() as int),
            forall|k: int|
                0 <= k < i ==> {
                    &&& (#[trigger] puts[k]).id@ == blake3_digest(volume_chunk(data@, k))
                    &&& stored_payload(key_view(key), volume_chunk(data@, k), puts[k].payload@)
                    &&& chunk_ids[k]@ == hex_encode_seq(puts[k].id@)
                },
        decreases chunks.len() - i,
    {
        let chunk = &chunks[i];
        proof {
            crate::cas::chunking::lemma_count_facts(data@.len(), size);
            assert((i + 1) * size == i * size + size) by (nonlinear_arith);
            assert(i * size <= (count - 1) * size) by (nonlinear_arith)
                requires
                    i <= count - 1,
                    size > 0,
            ;
            assert(chunk.data@.len() == min_int((i + 1) * size, data@.len() as int) - i * size);
            assert(bytes + chunk.data@.len() <= n);
        }
        bytes = bytes + chunk.data.len() as u64;
        let payload = match key {
            Some(k) => {
                match encrypt(k, chunk.data.as_slice()) {
                    Ok(c) => c.blob,
                    Err(_) => {
                        proof {
                            assert(false);
                        }
                        Vec::new()
                    },
                }
            },
            None => chunk.data.clone(),
        };
        chunk_ids.push(chunk.id.to_hex());
        puts.push(PendingPut { id: chunk.id, payload });
        i = i + 1;
    }
    proof {
        crate::cas::chunking::lemma_count_cover(data@.len(), size);
    }
    VolumeIngest {
        puts,
        snapshot: VolumeSnapshot { pvc_name: String::from_str(pvc_name), bytes, chunk_ids },
    }
}

/// The plaintext a stored payload gives back: the payload itself without a key, its opening
/// under the key otherwise.
pub open spec fn recovered_plaintext(key: Option<Seq<u8>>, payload: Seq<u8>) -> Seq<u8> {
    match key {
        None => payload,
        Some(k) => match open_blob(k, payload) {
            Some(p) => p,
            None => Seq::empty(),
        },
    }
}

/// A volume's stored objects give its data back: each manifest entry parses to the id of the
/// object stored for that chunk, that id is the hash of what the object gives back, and the
/// objects given back in manifest order and joined are exactly the volume's bytes.
pub proof fn lemma_ingest_restores_volume(
    key: Option<Seq<u8>>,
    pvc_name: Seq<char>,
    data: Seq<u8>,
    puts: Seq<PendingPut>,
    snapshot: VolumeSnapshot,
)
    requires
        ingest_plan_of(key, pvc_name, data, puts, snapshot),
    ensures
        forall|i: int|
            0 <= i < puts.len() ==> {
                &&& hex_decode_seq(vstd::utf8::encode_utf8(#[trigger] snapshot.chunk_ids[i]@))
                    == Some(puts[i].id@)
                &&& puts[i].id@ == blake3_digest(recovered_plaintext(key, puts[i].payload@))
            },
        puts.map_values(|p: PendingPut| recovered_plaintext(key, p.payload@)).flatten() == data,
{
    let size = DEFAULT_CHUNK_SIZE as nat;
    let rec = puts.map_values(|p: PendingPut| recovered_plaintext(key, p.payload@));
    assert forall|i: int| 0 <= i < puts.len() implies recovered_plaintext(
        key,
        (#[trigger] puts[i]).payload@,
    ) == volume_chunk(data, i) by {
        assert(stored_payload(key, volume_chunk(data, i), puts[i].payload@));
    }
    assert forall|i: int| 0 <= i < puts.len() implies {
        &&& hex_decode_seq(vstd::utf8::encode_utf8(#[trigger] snapshot.chunk_ids[i]@)) == Some(
            puts[i].id@,
        )
        &&& puts[i].id@ == blake3_digest(recovered_plaintext(key, puts[i].payload@))
    } by {
        lemma_hex_round_trip_text(puts[i].id@);
    }
    assert(rec =~= chunk_slices(data, size));
    crate::cas::chunking::lemma_chunks_reassemble(data, size);
}

/// Sum of the `bytes` of a run of volume snapshots.
pub open spec fn volumes_total(vs: Seq<VolumeSnapshot>) -> int
    decreases vs.len(),
{
    if vs.len() == 0 {
        0
    } else {
        volumes_total(vs.drop_last()) + vs.last().bytes
    }
}

/// Sum of the sizes of a run of snapshot inputs.
pub open spec fn inputs_total(vs: Seq<SnapshotInput>) -> int
    decreases vs.len(),
{
    if vs.len() == 0 {
        0
    } else {
        inputs_total(vs.drop_last()) + vs.last().data@.len()
    }
}

/// The manifest of a backup run: current version, the given creation time, whether it is
/// encrypted, the volumes in order and the sum of their sizes.
pub fn build_manifest(created_at: String, encrypted: bool, volumes: Vec<VolumeSnapshot>) -> (r:
    SnapshotManifest)
    requires
        volumes_total(volumes@) <= u64::MAX,
    ensures
        r.version == MANIFEST_VERSION,
        r.created_at == created_at,
        r.encrypted == encrypted,
        r.volumes@ == volumes@,
        r.total_bytes == volumes_total(volumes@),
{
    let mut total: u64 = 0;
    let mut i: usize = 0;
    while i < volumes.len()
        invariant
            i <= volumes.len(),
            volumes_total(volumes@) <= u64::MAX,
            total == volumes_total(volumes@.take(i as int)),
        decreases volumes.len() - i,
    {
        proof {
            assert(volumes@.take(i + 1).drop_last() =~= volumes@.take(i as int));
            lemma_volumes_total_prefix(volumes@, (i + 1) as int);
        }
        total = total + volumes[i].bytes;
        i = i + 1;
    }
    assert(volumes@.take(volumes.len() as int) =~= volumes@);
    SnapshotManifest { version: MANIFEST_VERSION, created_at, encrypted, volumes, total_bytes: total }
}

/// A prefix of a run of volumes never sums to more than the run.
proof fn lemma_volumes_total_prefix(vs: Seq<VolumeSnapshot>, k: int)
    requires
        0 <= k <= vs.len(),
    ensures
        volumes_total(vs.take(k)) <= volumes_total(vs),
    decreases vs.len(),
{
    if k < vs.len() {
        assert(vs.drop_last().take(k) =~= vs.take(k));
        lemma_volumes_total_prefix(vs.drop_last(), k);
    } else {
        assert(vs.take(k) =~= vs);
    }
}

/// The plan of a whole backup run: the objects to store for each volume, in order, and the
/// manifest that lists the volumes, marked encrypted exactly when a key is given, with the
/// total plaintext size.
pub fn plan_snapshot(key: Option<&EncryptionKey>, created_at: String, volumes: &[SnapshotInput]) -> (r: (
    Vec<Vec<PendingPut>>,
    SnapshotManifest,
))
    requires
        inputs_total(volumes@) <= u64::MAX,
    ensures
        r.0.len() == volumes@.len(),
        r.1.volumes.len() == volumes@.len(),
        forall|i: int|
            0 <= i < volumes@.len() ==> ingest_plan_of(
                key_view(key),
                volumes@[i].pvc_name@,
                volumes@[i].data@,
                (#[trigger] r.0[i])@,
                r.1.volumes[i],
            ),
        r.1.version == MANIFEST_VERSION,
        r.1.created_at == created_at,
        r.1.encrypted == key is Some,
        r.1.total_bytes == inputs_total(volumes@),
{
    let mut all_puts: Vec<Vec<PendingPut>> = Vec::new();
    let mut snaps: Vec<VolumeSnapshot> = Vec::new();
    let mut i: usize = 0;
    while i < volumes.len()
        invariant
            i <= volumes@.len(),
            all_puts.len() == i,
            snaps.len() == i,
            forall|k: int|
                0 <= k < i ==> ingest_plan_of(
                    key_view(key),
                    volumes@[k].pvc_name@,
                    volumes@[k].data@,
                    (#[trigger] all_puts[k])@,
                    snaps[k],
                ),
            volumes_total(snaps@) == inputs_total(volumes@.take(i as int)),
        decreases volumes.len() - i,
    {
        let v = &volumes[i];
        let VolumeIngest { puts, snapshot } = plan_volume_ingest(key, v.pvc_name, v.data);
        proof {
            assert(volumes@.take(i + 1).drop_last() =~= volumes@.take(i as int));
        }
        let ghost old_snaps = snaps@;
        snaps.push(snapshot);
        proof {
            assert(snaps@.drop_last() =~= old_snaps);
        }
        all_puts.push(puts);
        i = i + 1;
    }
    assert(volumes@.take(volumes@.len() as int) =~= volumes@);
    let manifest = build_manifest(created_at, key.is_some(), snaps);
    (all_puts, manifest)
}

} // verus!
