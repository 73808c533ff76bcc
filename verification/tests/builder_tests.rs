use nwg_icon::embed::EmbedResource;
use nwg_icon::errors::NwgError;
use nwg_icon::icon::{Icon, IconBuilder, IconSource};
use nwg_icon::oem::OemIcon;

#[test]
fn builder_starts_empty() {
    let b: IconBuilder = Icon::builder();
    assert!(b.source_text.is_none());
    assert!(b.source_bin.is_none());
    assert!(b.source_system.is_none());
    assert!(b.source_embed.is_none());
    assert_eq!(b.source_embed_id, 0);
    assert!(b.source_embed_str.is_none());
    assert!(b.size.is_none());
    assert!(!b.strict);
}

#[test]
fn source_file_sets_only_the_path() {
    let b = Icon::builder().strict(true).source_file(Some("app.ico"));
    assert_eq!(b.source_text, Some("app.ico"));
    assert!(b.source_bin.is_none());
    assert!(b.source_system.is_none());
    assert!(b.strict);
}

#[test]
fn source_file_can_be_cleared() {
    let b = Icon::builder().source_file(Some("app.ico")).source_file(None);
    assert!(b.source_text.is_none());
}

#[test]
fn source_bin_sets_only_the_bytes() {
    let bytes: [u8; 4] = [0, 0, 1, 0];
    let b = Icon::builder().source_bin(Some(&bytes));
    assert_eq!(b.source_bin, Some(&bytes[..]));
    assert!(b.source_text.is_none());
}

#[test]
fn source_system_sets_only_the_stock_icon() {
    let b = Icon::builder().source_system(Some(OemIcon::Shield));
    assert_eq!(b.source_system, Some(OemIcon::Shield));
    assert!(b.source_text.is_none());
    assert!(b.source_embed.is_none());
}

#[test]
fn source_embed_fields_are_independent() {
    let table = EmbedResource::from_module_handle(41);
    let b = Icon::builder()
        .source_embed(Some(&table))
        .source_embed_id(12)
        .source_embed_str(Some("MAINICON"));
    assert_eq!(b.source_embed.map(|e| e.module_handle), Some(41));
    assert_eq!(b.source_embed_id, 12);
    assert_eq!(b.source_embed_str, Some("MAINICON"));
}

#[test]
fn size_and_strict_are_recorded() {
    let b = Icon::builder().size(Some((48, 48))).strict(true);
    assert_eq!(b.size, Some((48, 48)));
    assert!(b.strict);
    let b = b.size(None).strict(false);
    assert!(b.size.is_none());
    assert!(!b.strict);
}

#[test]
fn resolve_prefers_the_file_source() {
    let table = EmbedResource::from_module_handle(3);
    let bytes: [u8; 4] = [0, 0, 1, 0];
    let b = Icon::builder()
        .source_embed(Some(&table))
        .source_system(Some(OemIcon::Hand))
        .source_bin(Some(&bytes))
        .source_file(Some("app.ico"));
    assert!(matches!(b.resolve_source(), Ok(IconSource::File("app.ico"))));
}

#[test]
fn resolve_prefers_the_bytes_over_the_stock_icon() {
    let bytes: [u8; 4] = [0, 0, 1, 0];
    let b = Icon::builder()
        .source_system(Some(OemIcon::Hand))
        .source_bin(Some(&bytes));
    assert!(matches!(
        b.resolve_source(),
        Ok(IconSource::Bytes(s)) if s == &bytes[..]
    ));
}

#[test]
fn resolve_prefers_the_stock_icon_over_the_table() {
    let table = EmbedResource::from_module_handle(3);
    let b = Icon::builder()
        .source_embed(Some(&table))
        .source_system(Some(OemIcon::Note));
    assert!(matches!(
        b.resolve_source(),
        Ok(IconSource::System(OemIcon::Note))
    ));
}

#[test]
fn resolve_prefers_the_name_within_the_table() {
    let table = EmbedResource::from_module_handle(3);
    let b = Icon::builder()
        .source_embed(Some(&table))
        .source_embed_id(12)
        .source_embed_str(Some("MAINICON"));
    assert!(matches!(
        b.resolve_source(),
        Ok(IconSource::EmbedByName(e, "MAINICON")) if e.module_handle == 3
    ));
}

#[test]
fn resolve_falls_back_to_the_id_within_the_table() {
    let table = EmbedResource::from_module_handle(3);
    let b = Icon::builder().source_embed(Some(&table)).source_embed_id(12);
    assert!(matches!(
        b.resolve_source(),
        Ok(IconSource::EmbedById(e, 12)) if e.module_handle == 3
    ));
}

#[test]
fn resolve_without_a_source_is_an_error() {
    let b = Icon::builder().size(Some((16, 16))).strict(true);
    assert_eq!(b.resolve_source().unwrap_err(), NwgError::NoIconSource);
}

#[test]
fn raw_bytes_alone_resolve_to_the_buffer() {
    let bytes: [u8; 4] = [0, 0, 1, 0];
    let b = Icon::builder().source_bin(Some(&bytes));
    assert!(matches!(
        b.resolve_source(),
        Ok(IconSource::Bytes(s)) if s == &bytes[..]
    ));
}
