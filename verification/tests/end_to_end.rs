use rom_unpack::archive::{Archive, ArchiveMember};
use rom_unpack::entry::{settle, Action, Decoded, EntryOutcome, Level, Opened, Payload};
use rom_unpack::store::{unpack_bootstrap, DictionaryStore};
use roead::byml::Byml;
use roead::sarc::{Sarc, SarcWriter};
use roead::Endian;

fn noise(n: usize, seed: u64) -> Vec<u8> {
    let mut state: u64 = seed;
    let mut out: Vec<u8> = Vec::with_capacity(n);
    for _ in 0..n {
        state = state.wrapping_mul(6364136223846793005).wrapping_add(1442695040888963407);
        out.push((state >> 56) as u8);
    }
    out
}

fn compress_with(dictionary: &[u8], blob: &[u8]) -> Vec<u8> {
    let mut compressor = zstd::bulk::Compressor::with_dictionary(3, dictionary).unwrap();
    compressor.compress(blob).unwrap()
}

fn document(endian: Endian) -> Vec<u8> {
    let doc = Byml::Array(vec![Byml::I32(7), Byml::String("seven".into()), Byml::Bool(true)]);
    doc.to_binary(endian)
}

fn decode_structured(bytes: &[u8]) -> Decoded {
    match Byml::from_binary(bytes) {
        Ok(tree) => match serde_yaml::to_string(&tree) {
            Ok(text) => Decoded::Text(text),
            Err(e) => Decoded::SerializeFailed(format!("{e}")),
        },
        Err(e) => Decoded::DecodeFailed(format!("{e}")),
    }
}

fn open_archive(bytes: &[u8]) -> Result<Archive, String> {
    let sarc = Sarc::new(bytes).map_err(|e| format!("{e}"))?;
    let members: Vec<ArchiveMember> = sarc
        .files()
        .map(|f| ArchiveMember { name: f.name().map(|n| n.to_string()), data: f.data().to_vec() })
        .collect();
    Ok(Archive::new(members))
}

fn finish(opened: Opened, out: &mut Vec<EntryOutcome>) {
    let decoded = match opened.action {
        Action::DecodeStructured => decode_structured(&opened.bytes),
        _ => Decoded::DecodeFailed("no decoder for this content".to_string()),
    };
    out.push(settle(opened, decoded));
}

fn process(store: &mut DictionaryStore, relative: &str, data: Vec<u8>, out: &mut Vec<EntryOutcome>) {
    let opened = match store.open_entry(relative, data, Level::TopLevel) {
        Ok(opened) => opened,
        Err(warning) => {
            out.push(EntryOutcome { written: None, warning: Some(warning) });
            return;
        }
    };
    if opened.action != Action::ExpandArchive {
        finish(opened, out);
        return;
    }
    let archive = match open_archive(&opened.bytes) {
        Ok(archive) => archive,
        Err(reason) => {
            out.push(settle(opened, Decoded::DecodeFailed(reason)));
            return;
        }
    };
    let mut at = archive.next_named(0);
    while let Some(i) = at {
        match store.open_member(&opened, archive.name(i), archive.data(i).to_vec()) {
            Ok(member) => finish(member, out),
            Err(warning) => out.push(EntryOutcome { written: None, warning: Some(warning) }),
        }
        at = archive.next_named(i + 1);
    }
}

fn written(out: &[EntryOutcome], path: &str) -> Payload {
    for outcome in out {
        if let Some(artifact) = &outcome.written {
            if artifact.path == path {
                return match &artifact.payload {
                    Payload::Text(t) => Payload::Text(t.clone()),
                    Payload::Raw(b) => Payload::Raw(b.clone()),
                };
            }
        }
    }
    panic!("nothing was written to {path}");
}

struct Tree {
    bootstrap: Vec<u8>,
    general: Vec<u8>,
    pack: Vec<u8>,
}

fn tree() -> Tree {
    let general = noise(1024, 31);
    let pack = noise(1024, 32);
    let map_data = noise(1024, 33);
    let mut writer = SarcWriter::new(Endian::Little);
    writer.add_file("zs.zsdic", general.clone());
    writer.add_file("pack.zsdic", pack.clone());
    writer.add_file("bcett.byml.zsdic", map_data);
    let bootstrap = zstd::bulk::compress(&writer.to_binary(), 3).unwrap();
    Tree { bootstrap, general, pack }
}

fn store_from(bootstrap_archive: &[u8]) -> DictionaryStore {
    let bytes = unpack_bootstrap(bootstrap_archive).unwrap();
    DictionaryStore::from_archive(&open_archive(&bytes).unwrap()).unwrap()
}

#[test]
fn tree_is_unpacked_end_to_end() {
    let t = tree();
    let mut store = store_from(&t.bootstrap);
    let raw = noise(300, 5);
    let a = compress_with(&t.general, &document(Endian::Little));
    let mut inner = SarcWriter::new(Endian::Little);
    inner.add_file("inner.byml.zs", compress_with(&t.general, &document(Endian::Little)));
    inner.add_file("raw.bin", raw.clone());
    let b = compress_with(&t.pack, &inner.to_binary());

    let mut out: Vec<EntryOutcome> = Vec::new();
    process(&mut store, "a.byml.zs", a, &mut out);
    process(&mut store, "b.pack.zs", b, &mut out);

    assert_eq!(out.len(), 3);
    assert!(out.iter().all(|o| o.warning.is_none()));
    let expected = serde_yaml::to_string(&Byml::from_binary(document(Endian::Little)).unwrap()).unwrap();
    assert!(expected.contains("seven"));
    assert!(matches!(written(&out, "a.yml"), Payload::Text(t) if t == expected));
    assert!(matches!(written(&out, "b.pack/inner.yml"), Payload::Text(t) if t == expected));
    assert!(matches!(written(&out, "b.pack/raw.bin"), Payload::Raw(b) if b == raw));
}

#[test]
fn order_of_processing_does_not_matter() {
    let t = tree();
    let a = compress_with(&t.general, &document(Endian::Little));
    let c = compress_with(&t.general, &noise(200, 9));
    let mut forward: Vec<EntryOutcome> = Vec::new();
    let mut store = store_from(&t.bootstrap);
    process(&mut store, "a.byml.zs", a.clone(), &mut forward);
    process(&mut store, "c.bin.zs", c.clone(), &mut forward);
    let mut backward: Vec<EntryOutcome> = Vec::new();
    let mut store = store_from(&t.bootstrap);
    process(&mut store, "c.bin.zs", c, &mut backward);
    process(&mut store, "a.byml.zs", a, &mut backward);
    for path in ["a.yml", "c.bin"] {
        let same = match (written(&forward, path), written(&backward, path)) {
            (Payload::Text(x), Payload::Text(y)) => x == y,
            (Payload::Raw(x), Payload::Raw(y)) => x == y,
            _ => false,
        };
        assert!(same);
    }
}

#[test]
fn both_byte_orders_decode_alike() {
    let little = decode_structured(&rom_unpack::entry::prepare("l.byml", document(Endian::Little), Level::TopLevel).bytes);
    let big = decode_structured(&rom_unpack::entry::prepare("b.byml", document(Endian::Big), Level::TopLevel).bytes);
    assert!(matches!((little, big), (Decoded::Text(l), Decoded::Text(b)) if l == b));
}

#[test]
fn corrupt_body_degrades_to_raw_bytes() {
    let t = tree();
    let mut store = store_from(&t.bootstrap);
    let mut body = document(Endian::Little);
    for byte in body.iter_mut().skip(4) {
        *byte = 0xff;
    }
    body[2] = 7;
    let mut out: Vec<EntryOutcome> = Vec::new();
    process(&mut store, "broken.byml.zs", compress_with(&t.general, &body), &mut out);
    assert_eq!(out.len(), 1);
    assert!(matches!(&out[0].warning, Some(w) if w.path == "broken.byml.zs" && !w.reason.is_empty()));
    assert!(matches!(written(&out, "broken.byml"), Payload::Raw(b) if b == body));
}

#[test]
fn missing_bootstrap_blob_is_fatal() {
    let mut writer = SarcWriter::new(Endian::Little);
    writer.add_file("zs.zsdic", noise(64, 1));
    writer.add_file("pack.zsdic", noise(64, 2));
    let packed = zstd::bulk::compress(&writer.to_binary(), 3).unwrap();
    let bytes = unpack_bootstrap(&packed).unwrap();
    let r = DictionaryStore::from_archive(&open_archive(&bytes).unwrap());
    assert!(matches!(
        r,
        Err(rom_unpack::store::InitError::MissingBootstrapDictionary(rom_unpack::store::DictionaryBlob::MapData))
    ));
}
