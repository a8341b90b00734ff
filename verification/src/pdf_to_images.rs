//! The streaming container: a pull-based byte source producing one metadata
//! block followed by one image block per selected page, each length-prefixed.
//!
//! Every block is a fixed 11-byte header and a payload. The header is a 4-byte
//! magic prefix (the ASCII bytes of `PPDF`), a 4-byte big-endian offset to the
//! next header (payload length plus header size), and a 3-byte tag: `MET` for
//! the single metadata block that always comes first, `IMG` for every page
//! block after it. Rendering a page and encoding it as a compressed image
//! happen outside this crate; the source asks for the next page's encoded
//! bytes when its buffer runs dry.

use vstd::prelude::*;

use crate::TransformationState;
use crate::host::spec_u32_be_bytes;
use crate::host::u32_to_be_bytes;

verus! {

/// The 4-byte magic prefix of every block header: the ASCII bytes of `PPDF`.
pub open spec fn header_prefix() -> Seq<u8> {
    seq![80u8, 80u8, 68u8, 70u8]
}

/// The metadata block's 3-byte tag: the ASCII bytes of `MET`.
pub open spec fn met_tag() -> Seq<u8> {
    seq![77u8, 69u8, 84u8]
}

/// An image block's 3-byte tag: the ASCII bytes of `IMG`.
pub open spec fn img_tag() -> Seq<u8> {
    seq![73u8, 77u8, 71u8]
}

/// The 11 bytes of a block header for a payload of `payload_len` bytes: magic
/// prefix, big-endian offset to the next header (payload length plus the
/// header's own 11 bytes), tag.
pub open spec fn header_bytes(tag: Seq<u8>, payload_len: int) -> Seq<u8> {
    header_prefix() + spec_u32_be_bytes((payload_len + 11) as u32) + tag
}

/// One whole block: its header, then its payload.
pub open spec fn block_bytes(tag: Seq<u8>, payload: Seq<u8>) -> Seq<u8> {
    header_bytes(tag, payload.len() as int) + payload
}

/// The image blocks of the given encoded pages, in order.
pub open spec fn img_blocks(pages: Seq<Seq<u8>>) -> Seq<u8>
    decreases pages.len(),
{
    if pages.len() == 0 {
        Seq::empty()
    } else {
        block_bytes(img_tag(), pages[0]) + img_blocks(pages.drop_first())
    }
}

/// The whole container stream for a metadata record and the encoded pages: the
/// metadata block, then one image block per page, in page order.
pub open spec fn container_stream(meta: Seq<u8>, pages: Seq<Seq<u8>>) -> Seq<u8> {
    block_bytes(met_tag(), meta) + img_blocks(pages)
}

/// Appending a page appends exactly its image block to the stream's image
/// blocks.
pub proof fn lemma_img_blocks_push(pages: Seq<Seq<u8>>, page: Seq<u8>)
    ensures
        img_blocks(pages.push(page)) == img_blocks(pages) + block_bytes(img_tag(), page),
    decreases pages.len(),
{
    let extended = pages.push(page);
    if pages.len() == 0 {
        assert(extended[0] == page);
        assert(extended.drop_first() =~= Seq::<Seq<u8>>::empty());
        assert(img_blocks(extended.drop_first()) =~= Seq::<u8>::empty());
        assert(img_blocks(extended) =~= block_bytes(img_tag(), page));
        assert(img_blocks(pages) =~= Seq::<u8>::empty());
        assert(img_blocks(pages) + block_bytes(img_tag(), page) =~= block_bytes(img_tag(), page));
    } else {
        lemma_img_blocks_push(pages.drop_first(), page);
        assert(extended[0] == pages[0]);
        assert(extended.drop_first() =~= pages.drop_first().push(page));
        assert(img_blocks(extended) =~= (block_bytes(img_tag(), pages[0]) + img_blocks(
            pages.drop_first(),
        )) + block_bytes(img_tag(), page));
        assert(img_blocks(pages) =~= block_bytes(img_tag(), pages[0]) + img_blocks(
            pages.drop_first(),
        ));
        assert(img_blocks(extended) =~= img_blocks(pages) + block_bytes(img_tag(), page));
    }
}

/// The tagged blocks a container stream is made of: the metadata block first,
/// then one image block per page, in page order.
pub open spec fn container_blocks(meta: Seq<u8>, pages: Seq<Seq<u8>>) -> Seq<(Seq<u8>, Seq<u8>)> {
    seq![(met_tag(), meta)] + pages.map_values(|p: Seq<u8>| (img_tag(), p))
}

/// The bytes of a sequence of tagged blocks, in order.
pub open spec fn flatten_blocks(blocks: Seq<(Seq<u8>, Seq<u8>)>) -> Seq<u8>
    decreases blocks.len(),
{
    if blocks.len() == 0 {
        Seq::empty()
    } else {
        block_bytes(blocks[0].0, blocks[0].1) + flatten_blocks(blocks.drop_first())
    }
}

proof fn lemma_img_blocks_are_flattened_blocks(pages: Seq<Seq<u8>>)
    ensures
        img_blocks(pages) == flatten_blocks(pages.map_values(|p: Seq<u8>| (img_tag(), p))),
    decreases pages.len(),
{
    let blocks = pages.map_values(|p: Seq<u8>| (img_tag(), p));
    if pages.len() == 0 {
        assert(img_blocks(pages) =~= flatten_blocks(blocks));
    } else {
        lemma_img_blocks_are_flattened_blocks(pages.drop_first());
        assert(blocks.drop_first() =~= pages.drop_first().map_values(
            |p: Seq<u8>| (img_tag(), p),
        ));
        assert(img_blocks(pages) =~= flatten_blocks(blocks));
    }
}

/// The container stream decomposes into tagged blocks of which exactly the
/// first carries the `MET` tag and the metadata record, and the block after
/// every page's predecessors carries the `IMG` tag and that page, so the image
/// blocks stand in ascending page order.
pub proof fn lemma_container_structure(meta: Seq<u8>, pages: Seq<Seq<u8>>)
    ensures
        container_stream(meta, pages) == flatten_blocks(container_blocks(meta, pages)),
        container_blocks(meta, pages).len() == 1 + pages.len(),
        container_blocks(meta, pages)[0] == (met_tag(), meta),
        forall|i: int|
            1 <= i < 1 + pages.len() ==> container_blocks(meta, pages)[i] == (
            img_tag(),
            pages[i - 1],
            ),
        forall|i: int|
            1 <= i < 1 + pages.len() ==> container_blocks(meta, pages)[i].0 != met_tag(),
{
    let blocks = container_blocks(meta, pages);
    lemma_img_blocks_are_flattened_blocks(pages);
    assert(blocks.drop_first() =~= pages.map_values(|p: Seq<u8>| (img_tag(), p)));
    assert(container_stream(meta, pages) =~= flatten_blocks(blocks));
    assert(img_tag() != met_tag()) by {
        assert(img_tag()[0] != met_tag()[0]);
    }
}

/// The name of the streaming container's metadata record: the JSON encoding of
/// the original title and the page count, a function of those two values
/// alone.
pub uninterp spec fn meta_json_of(title: Seq<char>, page_count: int) -> Seq<u8>;

/// Relies on `serde_json::to_vec` applied to a two-field string-keyed JSON
/// object: the bytes of `{"originalTitle": ..., "pageCount": ...}`, which
/// depend on the title and the page count alone.
#[verifier::external_body]
fn metadata_json(original_title: &String, page_count: usize) -> (r: Vec<u8>)
    ensures
        r@ == meta_json_of(original_title@, page_count as int),
{
    let mut record = serde_json::Map::new();
    record.insert("originalTitle".to_owned(), serde_json::Value::String(original_title.clone()));
    record.insert("pageCount".to_owned(), serde_json::Value::from(page_count));
    serde_json::to_vec(&serde_json::Value::Object(record)).expect(
        "a string-keyed JSON object always serializes",
    )
}

/// Which kind of block a header announces.
#[derive(Debug, Clone, Copy, PartialEq, Eq, Structural)]
pub enum HeaderTag {
    Met,
    Img,
}

impl HeaderTag {
    /// The 3 tag bytes this kind of header carries.
    pub open spec fn spec_bytes(self) -> Seq<u8> {
        match self {
            HeaderTag::Met => met_tag(),
            HeaderTag::Img => img_tag(),
        }
    }
}

/// A block header about to be written: the payload size it announces and the
/// tag it carries.
#[derive(Debug, Clone, Copy, PartialEq, Eq, Structural)]
pub struct ImageHeader {
    pub size: u32,
    pub postfix: HeaderTag,
}

impl ImageHeader {
    /// Accepts the payload size exactly when the offset to the next header,
    /// the size plus the header's own 11 bytes, fits the header's 4-byte
    /// field.
    pub fn try_new(postfix: HeaderTag, size: usize) -> (r: Option<ImageHeader>)
        ensures
            r is Some <==> size + 11 <= u32::MAX,
            r matches Some(h) ==> h.size == size && h.postfix == postfix,
    {
        if size as u64 > (u32::MAX - 11) as u64 {
            None
        } else {
            Some(ImageHeader { size: size as u32, postfix })
        }
    }

    /// The 11 header bytes: magic prefix, big-endian offset to the next
    /// header, tag.
    pub fn to_bytes(&self) -> (b: Vec<u8>)
        requires
            self.size + 11 <= u32::MAX,
        ensures
            b@ == header_bytes(self.postfix.spec_bytes(), self.size as int),
    {
        let offset_to_next_header: u32 = self.size + 11;
        let offset_bytes = u32_to_be_bytes(offset_to_next_header);
        let mut header: Vec<u8> = Vec::new();
        let prefix: [u8; 4] = [80, 80, 68, 70];
        header.extend_from_slice(prefix.as_slice());
        header.extend_from_slice(offset_bytes.as_slice());
        match self.postfix {
            HeaderTag::Met => {
                let tag: [u8; 3] = [77, 69, 84];
                header.extend_from_slice(tag.as_slice());
            },
            HeaderTag::Img => {
                let tag: [u8; 3] = [73, 77, 71];
                header.extend_from_slice(tag.as_slice());
            },
        }
        assert(header@ =~= header_bytes(self.postfix.spec_bytes(), self.size as int));
        header
    }
}

/// What one pull from the streaming source yields: buffered bytes, a request
/// for the next page in range (rendered and encoded outside this crate), or
/// the end of the stream.
pub enum ReadStep {
    /// The next bytes of the stream, at most as many as were asked for.
    Data(Vec<u8>),
    /// No bytes are buffered and this offset's page is next: encode it and
    /// hand it to [`Images::supply_page`].
    NeedPage(usize),
    /// No bytes are buffered and no pages remain in range.
    End,
}

/// The pull-based streaming source. `unread` holds queued bytes, oldest first;
/// `next_page` is the offset, from the range start, of the next page to
/// encode; the metadata block is queued exactly once, before anything else.
/// The ghost `emitted` and `pages_queued` record the bytes handed out so far
/// and the encoded pages queued so far, tying the source to the container
/// stream it produces.
pub struct Images {
    pub transformation: TransformationState,
    pub unread: Vec<u8>,
    pub next_page: usize,
    pub has_queued_metadata: bool,
    pub emitted: Ghost<Seq<u8>>,
    pub pages_queued: Ghost<Seq<Seq<u8>>>,
}

impl Images {
    /// The metadata record of this stream.
    pub open spec fn spec_meta(&self) -> Seq<u8> {
        meta_json_of(self.transformation.original_title@, self.transformation.page_count as int)
    }

    /// Everything the source has produced so far: the bytes already handed
    /// out, then the bytes still queued.
    pub open spec fn spec_stream_so_far(&self) -> Seq<u8> {
        self.emitted@ + self.unread@
    }

    /// The queued bytes once the metadata block is in the queue: queueing it
    /// is the first thing the source ever does.
    pub open spec fn spec_after_metadata(s: Images) -> Seq<u8> {
        if s.has_queued_metadata {
            s.unread@
        } else {
            block_bytes(met_tag(), s.spec_meta())
        }
    }

    /// The source's invariant: before the metadata block is queued nothing has
    /// happened; from then on, everything produced so far is exactly the
    /// container stream of the metadata record and the pages queued so far.
    pub open spec fn wf(&self) -> bool {
        &&& self.transformation.wf()
        &&& !self.has_queued_metadata ==> {
            &&& self.emitted@.len() == 0
            &&& self.unread@.len() == 0
            &&& self.next_page == 0
            &&& self.pages_queued@.len() == 0
        }
        &&& self.has_queued_metadata ==> self.spec_stream_so_far() == container_stream(
            self.spec_meta(),
            self.pages_queued@,
        )
        &&& self.pages_queued@.len() == self.next_page
        &&& self.next_page <= self.transformation.options.page_range.spec_included_count(
            self.transformation.page_count as int,
        )
    }

    pub fn new(transformation: TransformationState) -> (s: Images)
        requires
            transformation.wf(),
        ensures
            s.wf(),
            s.transformation == transformation,
            !s.has_queued_metadata,
            s.emitted@ =~= Seq::<u8>::empty(),
            s.next_page == 0,
    {
        Images {
            transformation,
            unread: Vec::new(),
            next_page: 0,
            has_queued_metadata: false,
            emitted: Ghost(Seq::empty()),
            pages_queued: Ghost(Seq::empty()),
        }
    }

    /// One pull of at most `max` bytes. The first pull queues the metadata
    /// block; a pull with queued bytes serves them from the front; a pull with
    /// an empty queue asks for the next page in range, or announces the end of
    /// the stream once none remain. Fails (`None`) exactly when the metadata
    /// record is too large to frame, in which case nothing changes; the
    /// embedding reports that as its transport's invalid-input error.
    pub fn poll(&mut self, max: usize) -> (r: Option<ReadStep>)
        requires
            old(self).wf(),
        ensures
            final(self).wf(),
            final(self).transformation == old(self).transformation,
            final(self).pages_queued@ == old(self).pages_queued@,
            final(self).next_page == old(self).next_page,
            r is None <==> (!old(self).has_queued_metadata && old(self).spec_meta().len() + 11
                > u32::MAX),
            r is None ==> *final(self) == *old(self),
            r is Some ==> final(self).has_queued_metadata,
            ({
                let queued = Images::spec_after_metadata(*old(self));
                let served = if max as int <= queued.len() {
                    max as int
                } else {
                    queued.len() as int
                };
                let includes = old(self).transformation.options.page_range.spec_includes(
                    old(self).next_page as int,
                    old(self).transformation.page_count as int,
                );
                &&& (r matches Some(ReadStep::Data(d)) ==> {
                    &&& queued.len() > 0
                    &&& d@ == queued.take(served)
                    &&& final(self).unread@ == queued.skip(served)
                    &&& final(self).emitted@ == old(self).emitted@ + d@
                })
                &&& (r is Some ==> ((r matches Some(ReadStep::Data(_))) <==> queued.len() > 0))
                &&& (r matches Some(ReadStep::NeedPage(offset)) ==> {
                    &&& queued.len() == 0
                    &&& offset == old(self).next_page
                    &&& includes
                    &&& final(self).unread@ == queued
                    &&& final(self).emitted@ == old(self).emitted@
                })
                &&& (r is Some ==> ((r matches Some(ReadStep::NeedPage(_))) <==> (queued.len() == 0
                    && includes)))
                &&& (r matches Some(ReadStep::End) ==> {
                    &&& queued.len() == 0
                    &&& !includes
                    &&& final(self).unread@ == queued
                    &&& final(self).emitted@ == old(self).emitted@
                })
            }),
    {
        if !self.has_queued_metadata {
            let meta = metadata_json(
                &self.transformation.original_title,
                self.transformation.page_count,
            );
            let header = match ImageHeader::try_new(HeaderTag::Met, meta.len()) {
                Some(header) => header,
                None => {
                    return None;
                },
            };
            let mut block = header.to_bytes();
            let mut meta = meta;
            block.append(&mut meta);
            self.unread = block;
            self.has_queued_metadata = true;
            proof {
                assert(self.spec_stream_so_far() =~= container_stream(
                    self.spec_meta(),
                    self.pages_queued@,
                ));
            }
        }
        let queued_len = self.unread.len();
        if queued_len > 0 {
            let k = if max <= queued_len {
                max
            } else {
                queued_len
            };
            let mut out: Vec<u8> = Vec::new();
            let mut i: usize = 0;
            while i < k
                invariant
                    i <= k,
                    k <= self.unread@.len(),
                    out@ =~= self.unread@.take(i as int),
                decreases k - i,
            {
                let byte = self.unread[i];
                out.push(byte);
                i += 1;
                proof {
                    assert(out@ =~= self.unread@.take(i as int));
                }
            }
            let tail = self.unread.split_off(k);
            self.unread = tail;
            let ghost previously_emitted = self.emitted@;
            self.emitted = Ghost(self.emitted@ + out@);
            proof {
                let queued = Images::spec_after_metadata(*old(self));
                assert(self.emitted@ + self.unread@ =~= previously_emitted + (queued.take(k as int)
                    + queued.skip(k as int)));
                assert(queued.take(k as int) + queued.skip(k as int) =~= queued);
            }
            return Some(ReadStep::Data(out));
        }
        if self.transformation.includes_offset(self.next_page) {
            Some(ReadStep::NeedPage(self.next_page))
        } else {
            Some(ReadStep::End)
        }
    }

    /// Queues the encoded image of the page the last poll asked for: its image
    /// block, header then payload, becomes the queue, and the source moves to
    /// the next page.
    pub fn supply_page(&mut self, png: Vec<u8>)
        requires
            old(self).wf(),
            old(self).has_queued_metadata,
            old(self).unread@.len() == 0,
            old(self).transformation.options.page_range.spec_includes(
                old(self).next_page as int,
                old(self).transformation.page_count as int,
            ),
            png@.len() + 11 <= u32::MAX,
        ensures
            final(self).wf(),
            final(self).transformation == old(self).transformation,
            final(self).has_queued_metadata,
            final(self).emitted@ == old(self).emitted@,
            final(self).unread@ == block_bytes(img_tag(), png@),
            final(self).next_page == old(self).next_page + 1,
            final(self).pages_queued@ == old(self).pages_queued@.push(png@),
    {
        proof {
            old(self).transformation.options.page_range.lemma_includes_iff_below_count(
                old(self).next_page as int,
                old(self).transformation.page_count as int,
            );
        }
        let header = match ImageHeader::try_new(HeaderTag::Img, png.len()) {
            Some(header) => header,
            None => {
                return vstd::pervasive::unreached();
            },
        };
        let mut block = header.to_bytes();
        let mut png = png;
        let ghost png_bytes = png@;
        block.append(&mut png);
        self.unread = block;
        self.next_page = self.next_page + 1;
        self.pages_queued = Ghost(self.pages_queued@.push(png_bytes));
        proof {
            lemma_img_blocks_push(old(self).pages_queued@, png_bytes);
            assert(self.spec_stream_so_far() =~= container_stream(
                self.spec_meta(),
                self.pages_queued@,
            ));
        }
    }
}

/// Runs the streaming source to completion for a document whose selected pages
/// encode to `pngs`, one per included offset in ascending order, and returns
/// the whole container stream; `None` exactly when the metadata record is too
/// large to frame.
pub fn encode_container(transformation: TransformationState, pngs: &Vec<Vec<u8>>) -> (r: Option<
    Vec<u8>,
>)
    requires
        transformation.wf(),
        pngs@.len() == transformation.options.page_range.spec_included_count(
            transformation.page_count as int,
        ),
        forall|i: int| 0 <= i < pngs@.len() ==> (#[trigger] pngs@[i])@.len() + 11 <= u32::MAX,
    ensures
        r is None <==> meta_json_of(transformation.original_title@, transformation.page_count as int).len()
            + 11 > u32::MAX,
        r matches Some(out) ==> out@ == container_stream(
            meta_json_of(transformation.original_title@, transformation.page_count as int),
            pngs@.map_values(|p: Vec<u8>| p@),
        ),
{
    let mut source = Images::new(transformation);
    let mut out: Vec<u8> = Vec::new();
    proof {
        assert(source.pages_queued@ =~= pngs@.take(0).map_values(|p: Vec<u8>| p@));
        assert(out@ =~= source.emitted@);
    }
    loop
        invariant
            source.wf(),
            source.transformation == transformation,
            source.has_queued_metadata ==> source.spec_meta().len() + 11 <= u32::MAX,
            out@ == source.emitted@,
            source.next_page <= pngs@.len(),
            source.pages_queued@ == pngs@.take(source.next_page as int).map_values(
                |p: Vec<u8>| p@,
            ),
            pngs@.len() == transformation.options.page_range.spec_included_count(
                transformation.page_count as int,
            ),
            forall|i: int| 0 <= i < pngs@.len() ==> (#[trigger] pngs@[i])@.len() + 11
                <= u32::MAX,
        decreases
                (if source.has_queued_metadata {
                    0int
                } else {
                    1int
                }),
                pngs@.len() - source.next_page,
                source.unread@.len(),
    {
        let step = match source.poll(4096) {
            Some(step) => step,
            None => {
                return None;
            },
        };
        match step {
            ReadStep::Data(mut data) => {
                out.append(&mut data);
            },
            ReadStep::NeedPage(offset) => {
                proof {
                    source.transformation.options.page_range.lemma_includes_iff_below_count(
                        source.next_page as int,
                        source.transformation.page_count as int,
                    );
                }
                let png = crate::clone_bytes(&pngs[offset]);
                let ghost next_page_before = source.next_page as int;
                source.supply_page(png);
                proof {
                    assert(pngs@.take(source.next_page as int) =~= pngs@.take(
                        next_page_before,
                    ).push(pngs@[next_page_before]));
                    assert(source.pages_queued@ =~= pngs@.take(
                        source.next_page as int,
                    ).map_values(|p: Vec<u8>| p@));
                }
            },
            ReadStep::End => {
                proof {
                    source.transformation.options.page_range.lemma_includes_iff_below_count(
                        source.next_page as int,
                        source.transformation.page_count as int,
                    );
                    assert(source.next_page == pngs@.len());
                    assert(pngs@.take(source.next_page as int) =~= pngs@);
                    assert(source.unread@.len() == 0);
                    assert(source.emitted@ =~= source.emitted@ + source.unread@);
                    assert(out@ =~= container_stream(source.spec_meta(), source.pages_queued@));
                    assert(source.pages_queued@ =~= pngs@.map_values(|p: Vec<u8>| p@));
                }
                return Some(out);
            },
        }
    }
}

} // verus!
