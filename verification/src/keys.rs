//! ASCII literals of the wire protocol: the variant tags and field
//! names of the message encoding, each as its raw bytes and as a full
//! text item (header byte followed by the bytes), and the fixed
//! rendezvous target used for directory bootstrap.
use vstd::prelude::*;

verus! {

pub open spec fn n_get() -> Seq<u8> {
    seq![71u8, 101, 116]
}

pub open spec fn t_get() -> Seq<u8> {
    seq![99u8] + n_get()
}

pub fn lit_get() -> (r: Vec<u8>)
    ensures
        r@ == t_get(),
{
    let mut v: Vec<u8> = Vec::new();
    v.push(99);
    v.push(71);
    v.push(101);
    v.push(116);
    assert(v@ =~= t_get());
    v
}

pub fn name_get() -> (r: Vec<u8>)
    ensures
        r@ == n_get(),
{
    let mut v: Vec<u8> = Vec::new();
    v.push(71);
    v.push(101);
    v.push(116);
    assert(v@ =~= n_get());
    v
}

pub open spec fn n_takerhello() -> Seq<u8> {
    seq![84u8, 97, 107, 101, 114, 72, 101, 108, 108, 111]
}

pub open spec fn t_takerhello() -> Seq<u8> {
    seq![106u8] + n_takerhello()
}

pub fn lit_takerhello() -> (r: Vec<u8>)
    ensures
        r@ == t_takerhello(),
{
    let mut v: Vec<u8> = Vec::new();
    v.push(106);
    v.push(84);
    v.push(97);
    v.push(107);
    v.push(101);
    v.push(114);
    v.push(72);
    v.push(101);
    v.push(108);
    v.push(108);
    v.push(111);
    assert(v@ =~= t_takerhello());
    v
}

pub fn name_takerhello() -> (r: Vec<u8>)
    ensures
        r@ == n_takerhello(),
{
    let mut v: Vec<u8> = Vec::new();
    v.push(84);
    v.push(97);
    v.push(107);
    v.push(101);
    v.push(114);
    v.push(72);
    v.push(101);
    v.push(108);
    v.push(108);
    v.push(111);
    assert(v@ =~= n_takerhello());
    v
}

pub open spec fn n_reqgiveoffer() -> Seq<u8> {
    seq![82u8, 101, 113, 71, 105, 118, 101, 79, 102, 102, 101, 114]
}

pub open spec fn t_reqgiveoffer() -> Seq<u8> {
    seq![108u8] + n_reqgiveoffer()
}

pub fn lit_reqgiveoffer() -> (r: Vec<u8>)
    ensures
        r@ == t_reqgiveoffer(),
{
    let mut v: Vec<u8> = Vec::new();
    v.push(108);
    v.push(82);
    v.push(101);
    v.push(113);
    v.push(71);
    v.push(105);
    v.push(118);
    v.push(101);
    v.push(79);
    v.push(102);
    v.push(102);
    v.push(101);
    v.push(114);
    assert(v@ =~= t_reqgiveoffer());
    v
}

pub fn name_reqgiveoffer() -> (r: Vec<u8>)
    ensures
        r@ == n_reqgiveoffer(),
{
    let mut v: Vec<u8> = Vec::new();
    v.push(82);
    v.push(101);
    v.push(113);
    v.push(71);
    v.push(105);
    v.push(118);
    v.push(101);
    v.push(79);
    v.push(102);
    v.push(102);
    v.push(101);
    v.push(114);
    assert(v@ =~= n_reqgiveoffer());
    v
}

pub open spec fn n_makerhello() -> Seq<u8> {
    seq![77u8, 97, 107, 101, 114, 72, 101, 108, 108, 111]
}

pub open spec fn t_makerhello() -> Seq<u8> {
    seq![106u8] + n_makerhello()
}

pub fn lit_makerhello() -> (r: Vec<u8>)
    ensures
        r@ == t_makerhello(),
{
    let mut v: Vec<u8> = Vec::new();
    v.push(106);
    v.push(77);
    v.push(97);
    v.push(107);
    v.push(101);
    v.push(114);
    v.push(72);
    v.push(101);
    v.push(108);
    v.push(108);
    v.push(111);
    assert(v@ =~= t_makerhello());
    v
}

pub fn name_makerhello() -> (r: Vec<u8>)
    ensures
        r@ == n_makerhello(),
{
    let mut v: Vec<u8> = Vec::new();
    v.push(77);
    v.push(97);
    v.push(107);
    v.push(101);
    v.push(114);
    v.push(72);
    v.push(101);
    v.push(108);
    v.push(108);
    v.push(111);
    assert(v@ =~= n_makerhello());
    v
}

pub open spec fn n_respoffer() -> Seq<u8> {
    seq![82u8, 101, 115, 112, 79, 102, 102, 101, 114]
}

pub open spec fn t_respoffer() -> Seq<u8> {
    seq![105u8] + n_respoffer()
}

pub fn lit_respoffer() -> (r: Vec<u8>)
    ensures
        r@ == t_respoffer(),
{
    let mut v: Vec<u8> = Vec::new();
    v.push(105);
    v.push(82);
    v.push(101);
    v.push(115);
    v.push(112);
    v.push(79);
    v.push(102);
    v.push(102);
    v.push(101);
    v.push(114);
    assert(v@ =~= t_respoffer());
    v
}

pub fn name_respoffer() -> (r: Vec<u8>)
    ensures
        r@ == n_respoffer(),
{
    let mut v: Vec<u8> = Vec::new();
    v.push(82);
    v.push(101);
    v.push(115);
    v.push(112);
    v.push(79);
    v.push(102);
    v.push(102);
    v.push(101);
    v.push(114);
    assert(v@ =~= n_respoffer());
    v
}

pub open spec fn n_unknown() -> Seq<u8> {
    seq![85u8, 110, 107, 110, 111, 119, 110]
}

pub open spec fn t_unknown() -> Seq<u8> {
    seq![103u8] + n_unknown()
}

pub fn lit_unknown() -> (r: Vec<u8>)
    ensures
        r@ == t_unknown(),
{
    let mut v: Vec<u8> = Vec::new();
    v.push(103);
    v.push(85);
    v.push(110);
    v.push(107);
    v.push(110);
    v.push(111);
    v.push(119);
    v.push(110);
    assert(v@ =~= t_unknown());
    v
}

pub fn name_unknown() -> (r: Vec<u8>)
    ensures
        r@ == n_unknown(),
{
    let mut v: Vec<u8> = Vec::new();
    v.push(85);
    v.push(110);
    v.push(107);
    v.push(110);
    v.push(111);
    v.push(119);
    v.push(110);
    assert(v@ =~= n_unknown());
    v
}

pub open spec fn n_protocol_version_min() -> Seq<u8> {
    seq![112u8, 114, 111, 116, 111, 99, 111, 108, 95, 118, 101, 114, 115, 105, 111, 110, 95, 109, 105, 110]
}

pub open spec fn t_protocol_version_min() -> Seq<u8> {
    seq![116u8] + n_protocol_version_min()
}

pub fn lit_protocol_version_min() -> (r: Vec<u8>)
    ensures
        r@ == t_protocol_version_min(),
{
    let mut v: Vec<u8> = Vec::new();
    v.push(116);
    v.push(112);
    v.push(114);
    v.push(111);
    v.push(116);
    v.push(111);
    v.push(99);
    v.push(111);
    v.push(108);
    v.push(95);
    v.push(118);
    v.push(101);
    v.push(114);
    v.push(115);
    v.push(105);
    v.push(111);
    v.push(110);
    v.push(95);
    v.push(109);
    v.push(105);
    v.push(110);
    assert(v@ =~= t_protocol_version_min());
    v
}

pub open spec fn n_protocol_version_max() -> Seq<u8> {
    seq![112u8, 114, 111, 116, 111, 99, 111, 108, 95, 118, 101, 114, 115, 105, 111, 110, 95, 109, 97, 120]
}

pub open spec fn t_protocol_version_max() -> Seq<u8> {
    seq![116u8] + n_protocol_version_max()
}

pub fn lit_protocol_version_max() -> (r: Vec<u8>)
    ensures
        r@ == t_protocol_version_max(),
{
    let mut v: Vec<u8> = Vec::new();
    v.push(116);
    v.push(112);
    v.push(114);
    v.push(111);
    v.push(116);
    v.push(111);
    v.push(99);
    v.push(111);
    v.push(108);
    v.push(95);
    v.push(118);
    v.push(101);
    v.push(114);
    v.push(115);
    v.push(105);
    v.push(111);
    v.push(110);
    v.push(95);
    v.push(109);
    v.push(97);
    v.push(120);
    assert(v@ =~= t_protocol_version_max());
    v
}

pub open spec fn n_txid() -> Seq<u8> {
    seq![116u8, 120, 105, 100]
}

pub open spec fn t_txid() -> Seq<u8> {
    seq![100u8] + n_txid()
}

pub fn lit_txid() -> (r: Vec<u8>)
    ensures
        r@ == t_txid(),
{
    let mut v: Vec<u8> = Vec::new();
    v.push(100);
    v.push(116);
    v.push(120);
    v.push(105);
    v.push(100);
    assert(v@ =~= t_txid());
    v
}

pub open spec fn n_vout() -> Seq<u8> {
    seq![118u8, 111, 117, 116]
}

pub open spec fn t_vout() -> Seq<u8> {
    seq![100u8] + n_vout()
}

pub fn lit_vout() -> (r: Vec<u8>)
    ensures
        r@ == t_vout(),
{
    let mut v: Vec<u8> = Vec::new();
    v.push(100);
    v.push(118);
    v.push(111);
    v.push(117);
    v.push(116);
    assert(v@ =~= t_vout());
    v
}

pub open spec fn n_outpoint() -> Seq<u8> {
    seq![111u8, 117, 116, 112, 111, 105, 110, 116]
}

pub open spec fn t_outpoint() -> Seq<u8> {
    seq![104u8] + n_outpoint()
}

pub fn lit_outpoint() -> (r: Vec<u8>)
    ensures
        r@ == t_outpoint(),
{
    let mut v: Vec<u8> = Vec::new();
    v.push(104);
    v.push(111);
    v.push(117);
    v.push(116);
    v.push(112);
    v.push(111);
    v.push(105);
    v.push(110);
    v.push(116);
    assert(v@ =~= t_outpoint());
    v
}

pub open spec fn n_amount() -> Seq<u8> {
    seq![97u8, 109, 111, 117, 110, 116]
}

pub open spec fn t_amount() -> Seq<u8> {
    seq![102u8] + n_amount()
}

pub fn lit_amount() -> (r: Vec<u8>)
    ensures
        r@ == t_amount(),
{
    let mut v: Vec<u8> = Vec::new();
    v.push(102);
    v.push(97);
    v.push(109);
    v.push(111);
    v.push(117);
    v.push(110);
    v.push(116);
    assert(v@ =~= t_amount());
    v
}

pub open spec fn n_lock_time() -> Seq<u8> {
    seq![108u8, 111, 99, 107, 95, 116, 105, 109, 101]
}

pub open spec fn t_lock_time() -> Seq<u8> {
    seq![105u8] + n_lock_time()
}

pub fn lit_lock_time() -> (r: Vec<u8>)
    ensures
        r@ == t_lock_time(),
{
    let mut v: Vec<u8> = Vec::new();
    v.push(105);
    v.push(108);
    v.push(111);
    v.push(99);
    v.push(107);
    v.push(95);
    v.push(116);
    v.push(105);
    v.push(109);
    v.push(101);
    assert(v@ =~= t_lock_time());
    v
}

pub open spec fn n_pubkey() -> Seq<u8> {
    seq![112u8, 117, 98, 107, 101, 121]
}

pub open spec fn t_pubkey() -> Seq<u8> {
    seq![102u8] + n_pubkey()
}

pub fn lit_pubkey() -> (r: Vec<u8>)
    ensures
        r@ == t_pubkey(),
{
    let mut v: Vec<u8> = Vec::new();
    v.push(102);
    v.push(112);
    v.push(117);
    v.push(98);
    v.push(107);
    v.push(101);
    v.push(121);
    assert(v@ =~= t_pubkey());
    v
}

pub open spec fn n_conf_height() -> Seq<u8> {
    seq![99u8, 111, 110, 102, 95, 104, 101, 105, 103, 104, 116]
}

pub open spec fn t_conf_height() -> Seq<u8> {
    seq![107u8] + n_conf_height()
}

pub fn lit_conf_height() -> (r: Vec<u8>)
    ensures
        r@ == t_conf_height(),
{
    let mut v: Vec<u8> = Vec::new();
    v.push(107);
    v.push(99);
    v.push(111);
    v.push(110);
    v.push(102);
    v.push(95);
    v.push(104);
    v.push(101);
    v.push(105);
    v.push(103);
    v.push(104);
    v.push(116);
    assert(v@ =~= t_conf_height());
    v
}

pub open spec fn n_cert_expiry() -> Seq<u8> {
    seq![99u8, 101, 114, 116, 95, 101, 120, 112, 105, 114, 121]
}

pub open spec fn t_cert_expiry() -> Seq<u8> {
    seq![107u8] + n_cert_expiry()
}

pub fn lit_cert_expiry() -> (r: Vec<u8>)
    ensures
        r@ == t_cert_expiry(),
{
    let mut v: Vec<u8> = Vec::new();
    v.push(107);
    v.push(99);
    v.push(101);
    v.push(114);
    v.push(116);
    v.push(95);
    v.push(101);
    v.push(120);
    v.push(112);
    v.push(105);
    v.push(114);
    v.push(121);
    assert(v@ =~= t_cert_expiry());
    v
}

pub open spec fn n_bond() -> Seq<u8> {
    seq![98u8, 111, 110, 100]
}

pub open spec fn t_bond() -> Seq<u8> {
    seq![100u8] + n_bond()
}

pub fn lit_bond() -> (r: Vec<u8>)
    ensures
        r@ == t_bond(),
{
    let mut v: Vec<u8> = Vec::new();
    v.push(100);
    v.push(98);
    v.push(111);
    v.push(110);
    v.push(100);
    assert(v@ =~= t_bond());
    v
}

pub open spec fn n_cert_hash() -> Seq<u8> {
    seq![99u8, 101, 114, 116, 95, 104, 97, 115, 104]
}

pub open spec fn t_cert_hash() -> Seq<u8> {
    seq![105u8] + n_cert_hash()
}

pub fn lit_cert_hash() -> (r: Vec<u8>)
    ensures
        r@ == t_cert_hash(),
{
    let mut v: Vec<u8> = Vec::new();
    v.push(105);
    v.push(99);
    v.push(101);
    v.push(114);
    v.push(116);
    v.push(95);
    v.push(104);
    v.push(97);
    v.push(115);
    v.push(104);
    assert(v@ =~= t_cert_hash());
    v
}

pub open spec fn n_cert_sig() -> Seq<u8> {
    seq![99u8, 101, 114, 116, 95, 115, 105, 103]
}

pub open spec fn t_cert_sig() -> Seq<u8> {
    seq![104u8] + n_cert_sig()
}

pub fn lit_cert_sig() -> (r: Vec<u8>)
    ensures
        r@ == t_cert_sig(),
{
    let mut v: Vec<u8> = Vec::new();
    v.push(104);
    v.push(99);
    v.push(101);
    v.push(114);
    v.push(116);
    v.push(95);
    v.push(115);
    v.push(105);
    v.push(103);
    assert(v@ =~= t_cert_sig());
    v
}

pub open spec fn n_base_fee() -> Seq<u8> {
    seq![98u8, 97, 115, 101, 95, 102, 101, 101]
}

pub open spec fn t_base_fee() -> Seq<u8> {
    seq![104u8] + n_base_fee()
}

pub fn lit_base_fee() -> (r: Vec<u8>)
    ensures
        r@ == t_base_fee(),
{
    let mut v: Vec<u8> = Vec::new();
    v.push(104);
    v.push(98);
    v.push(97);
    v.push(115);
    v.push(101);
    v.push(95);
    v.push(102);
    v.push(101);
    v.push(101);
    assert(v@ =~= t_base_fee());
    v
}

pub open spec fn n_amount_relative_fee_pct() -> Seq<u8> {
    seq![97u8, 109, 111, 117, 110, 116, 95, 114, 101, 108, 97, 116, 105, 118, 101, 95, 102, 101, 101, 95, 112, 99, 116]
}

pub open spec fn t_amount_relative_fee_pct() -> Seq<u8> {
    seq![119u8] + n_amount_relative_fee_pct()
}

pub fn lit_amount_relative_fee_pct() -> (r: Vec<u8>)
    ensures
        r@ == t_amount_relative_fee_pct(),
{
    let mut v: Vec<u8> = Vec::new();
    v.push(119);
    v.push(97);
    v.push(109);
    v.push(111);
    v.push(117);
    v.push(110);
    v.push(116);
    v.push(95);
    v.push(114);
    v.push(101);
    v.push(108);
    v.push(97);
    v.push(116);
    v.push(105);
    v.push(118);
    v.push(101);
    v.push(95);
    v.push(102);
    v.push(101);
    v.push(101);
    v.push(95);
    v.push(112);
    v.push(99);
    v.push(116);
    assert(v@ =~= t_amount_relative_fee_pct());
    v
}

pub open spec fn n_time_relative_fee_pct() -> Seq<u8> {
    seq![116u8, 105, 109, 101, 95, 114, 101, 108, 97, 116, 105, 118, 101, 95, 102, 101, 101, 95, 112, 99, 116]
}

pub open spec fn t_time_relative_fee_pct() -> Seq<u8> {
    seq![117u8] + n_time_relative_fee_pct()
}

pub fn lit_time_relative_fee_pct() -> (r: Vec<u8>)
    ensures
        r@ == t_time_relative_fee_pct(),
{
    let mut v: Vec<u8> = Vec::new();
    v.push(117);
    v.push(116);
    v.push(105);
    v.push(109);
    v.push(101);
    v.push(95);
    v.push(114);
    v.push(101);
    v.push(108);
    v.push(97);
    v.push(116);
    v.push(105);
    v.push(118);
    v.push(101);
    v.push(95);
    v.push(102);
    v.push(101);
    v.push(101);
    v.push(95);
    v.push(112);
    v.push(99);
    v.push(116);
    assert(v@ =~= t_time_relative_fee_pct());
    v
}

pub open spec fn n_min_size() -> Seq<u8> {
    seq![109u8, 105, 110, 95, 115, 105, 122, 101]
}

pub open spec fn t_min_size() -> Seq<u8> {
    seq![104u8] + n_min_size()
}

pub fn lit_min_size() -> (r: Vec<u8>)
    ensures
        r@ == t_min_size(),
{
    let mut v: Vec<u8> = Vec::new();
    v.push(104);
    v.push(109);
    v.push(105);
    v.push(110);
    v.push(95);
    v.push(115);
    v.push(105);
    v.push(122);
    v.push(101);
    assert(v@ =~= t_min_size());
    v
}

pub open spec fn n_max_size() -> Seq<u8> {
    seq![109u8, 97, 120, 95, 115, 105, 122, 101]
}

pub open spec fn t_max_size() -> Seq<u8> {
    seq![104u8] + n_max_size()
}

pub fn lit_max_size() -> (r: Vec<u8>)
    ensures
        r@ == t_max_size(),
{
    let mut v: Vec<u8> = Vec::new();
    v.push(104);
    v.push(109);
    v.push(97);
    v.push(120);
    v.push(95);
    v.push(115);
    v.push(105);
    v.push(122);
    v.push(101);
    assert(v@ =~= t_max_size());
    v
}

pub open spec fn n_required_confirms() -> Seq<u8> {
    seq![114u8, 101, 113, 117, 105, 114, 101, 100, 95, 99, 111, 110, 102, 105, 114, 109, 115]
}

pub open spec fn t_required_confirms() -> Seq<u8> {
    seq![113u8] + n_required_confirms()
}

pub fn lit_required_confirms() -> (r: Vec<u8>)
    ensures
        r@ == t_required_confirms(),
{
    let mut v: Vec<u8> = Vec::new();
    v.push(113);
    v.push(114);
    v.push(101);
    v.push(113);
    v.push(117);
    v.push(105);
    v.push(114);
    v.push(101);
    v.push(100);
    v.push(95);
    v.push(99);
    v.push(111);
    v.push(110);
    v.push(102);
    v.push(105);
    v.push(114);
    v.push(109);
    v.push(115);
    assert(v@ =~= t_required_confirms());
    v
}

pub open spec fn n_minimum_locktime() -> Seq<u8> {
    seq![109u8, 105, 110, 105, 109, 117, 109, 95, 108, 111, 99, 107, 116, 105, 109, 101]
}

pub open spec fn t_minimum_locktime() -> Seq<u8> {
    seq![112u8] + n_minimum_locktime()
}

pub fn lit_minimum_locktime() -> (r: Vec<u8>)
    ensures
        r@ == t_minimum_locktime(),
{
    let mut v: Vec<u8> = Vec::new();
    v.push(112);
    v.push(109);
    v.push(105);
    v.push(110);
    v.push(105);
    v.push(109);
    v.push(117);
    v.push(109);
    v.push(95);
    v.push(108);
    v.push(111);
    v.push(99);
    v.push(107);
    v.push(116);
    v.push(105);
    v.push(109);
    v.push(101);
    assert(v@ =~= t_minimum_locktime());
    v
}

pub open spec fn n_fidelity() -> Seq<u8> {
    seq![102u8, 105, 100, 101, 108, 105, 116, 121]
}

pub open spec fn t_fidelity() -> Seq<u8> {
    seq![104u8] + n_fidelity()
}

pub fn lit_fidelity() -> (r: Vec<u8>)
    ensures
        r@ == t_fidelity(),
{
    let mut v: Vec<u8> = Vec::new();
    v.push(104);
    v.push(102);
    v.push(105);
    v.push(100);
    v.push(101);
    v.push(108);
    v.push(105);
    v.push(116);
    v.push(121);
    assert(v@ =~= t_fidelity());
    v
}

pub open spec fn n_tweakable_point() -> Seq<u8> {
    seq![116u8, 119, 101, 97, 107, 97, 98, 108, 101, 95, 112, 111, 105, 110, 116]
}

pub open spec fn t_tweakable_point() -> Seq<u8> {
    seq![111u8] + n_tweakable_point()
}

pub fn lit_tweakable_point() -> (r: Vec<u8>)
    ensures
        r@ == t_tweakable_point(),
{
    let mut v: Vec<u8> = Vec::new();
    v.push(111);
    v.push(116);
    v.push(119);
    v.push(101);
    v.push(97);
    v.push(107);
    v.push(97);
    v.push(98);
    v.push(108);
    v.push(101);
    v.push(95);
    v.push(112);
    v.push(111);
    v.push(105);
    v.push(110);
    v.push(116);
    assert(v@ =~= t_tweakable_point());
    v
}

pub open spec fn n_rendezvous_host() -> Seq<u8> {
    seq![107u8, 105, 122, 113, 110, 97, 115, 108, 99, 98, 50, 114, 51, 109, 98, 107, 50, 118, 109, 55, 55, 98, 100, 102, 102, 51, 109, 97, 100, 99, 118, 100, 100, 110, 116, 109, 97, 97, 122, 50, 104, 116, 109, 107, 121, 117, 119, 55, 115, 103, 104, 52, 100, 100, 113, 100, 46, 111, 110, 105, 111, 110]
}

pub fn lit_rendezvous_host() -> (r: Vec<u8>)
    ensures
        r@ == n_rendezvous_host(),
{
    let mut v: Vec<u8> = Vec::new();
    v.push(107);
    v.push(105);
    v.push(122);
    v.push(113);
    v.push(110);
    v.push(97);
    v.push(115);
    v.push(108);
    v.push(99);
    v.push(98);
    v.push(50);
    v.push(114);
    v.push(51);
    v.push(109);
    v.push(98);
    v.push(107);
    v.push(50);
    v.push(118);
    v.push(109);
    v.push(55);
    v.push(55);
    v.push(98);
    v.push(100);
    v.push(102);
    v.push(102);
    v.push(51);
    v.push(109);
    v.push(97);
    v.push(100);
    v.push(99);
    v.push(118);
    v.push(100);
    v.push(100);
    v.push(110);
    v.push(116);
    v.push(109);
    v.push(97);
    v.push(97);
    v.push(122);
    v.push(50);
    v.push(104);
    v.push(116);
    v.push(109);
    v.push(107);
    v.push(121);
    v.push(117);
    v.push(119);
    v.push(55);
    v.push(115);
    v.push(103);
    v.push(104);
    v.push(52);
    v.push(100);
    v.push(100);
    v.push(113);
    v.push(100);
    v.push(46);
    v.push(111);
    v.push(110);
    v.push(105);
    v.push(111);
    v.push(110);
    assert(v@ =~= n_rendezvous_host());
    v
}

pub open spec fn n_rendezvous_port() -> Seq<u8> {
    seq![56u8, 48, 56, 48]
}

pub fn lit_rendezvous_port() -> (r: Vec<u8>)
    ensures
        r@ == n_rendezvous_port(),
{
    let mut v: Vec<u8> = Vec::new();
    v.push(56);
    v.push(48);
    v.push(56);
    v.push(48);
    assert(v@ =~= n_rendezvous_port());
    v
}

} // verus!
