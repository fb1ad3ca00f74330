//! Properties that relate several operations of the library.
use vstd::prelude::*;

use crate::crypto::{
    base64_encoded, ed25519_key_valid, ed25519_public_of, ed25519_signature_of, file_key,
    lemma_xor_stream_involution, signature_accepted, xor_stream,
};
use crate::generator::{
    display_key, generated_key, generated_signature_sound, generation_result, hex_list,
    hex_literal, hyphenated, signed_text, verification_result, verified_message,
    VerifyErrorView,
};
use crate::machine_id::fingerprint_text;
use crate::license::{
    activation_outcome, checked_status, expiry_text, is_known_edition, key_prefix,
    last_run_text, last_run_value, license_days_left, license_signature_ok, license_status,
    normalized_key, parsed_key, payload_text, trial_start_result, trial_status, ActivationView,
    LicenseFileView, LicenseKeyView, StatusView, TrialError, TrialFileView,
};
use crate::text::{
    all_ascii, ascii_upper, decimal, differs_from, eq_ignoring_ascii_case, join5, lacks,
    lacks_white_space, lemma_decimal_facts, lemma_filter_keeps_all, lemma_filter_lacks,
    lemma_parse_decimal, lemma_split5_parts, lemma_split_join5, lemma_trim_no_white_space,
    is_white_space, not_white_space, parse_u64, split_fields, trim, uppercased, without_char, without_white_space,
};

verus! {

proof fn lemma_filters_distribute(a: Seq<char>, b: Seq<char>)
    ensures
        without_white_space(a + b) == without_white_space(a) + without_white_space(b),
        without_char(a + b, '-') == without_char(a, '-') + without_char(b, '-'),
{
    reveal(without_white_space);
    reveal(without_char);
    Seq::filter_distributes_over_add(a, b, not_white_space());
    Seq::filter_distributes_over_add(a, b, differs_from('-'));
}

proof fn lemma_single_char_filters(c: char)
    ensures
        c == '|' ==> without_white_space(seq![c]) == seq![c],
        c == '-' ==> without_white_space(seq![c]) == seq![c],
        c == '-' ==> without_char(seq![c], '-') == Seq::<char>::empty(),
{
    reveal(without_white_space);
    reveal(without_char);
    reveal_with_fuel(Seq::<_>::filter, 2);
    assert(seq![c].drop_last() == Seq::<char>::empty());
}

/// Removing white space and hyphens from a hyphen-grouped text gives what
/// removing them from the text itself gives.
proof fn lemma_hyphens_vanish(s: Seq<char>)
    ensures
        without_char(without_white_space(hyphenated(s)), '-') == without_char(
            without_white_space(s),
            '-',
        ),
    decreases s.len(),
{
    if s.len() > 4 {
        let a = s.take(4);
        let b = s.skip(4);
        lemma_hyphens_vanish(b);
        let h = hyphenated(b);
        assert(hyphenated(s) == a + seq!['-'] + h);
        lemma_single_char_filters('-');
        lemma_filters_distribute(a + seq!['-'], h);
        lemma_filters_distribute(a, seq!['-']);
        lemma_filters_distribute(without_white_space(a), seq!['-']);
        lemma_filters_distribute(without_white_space(a) + seq!['-'], without_white_space(h));
        assert(s == a + b);
        lemma_filters_distribute(a, b);
        lemma_filters_distribute(without_white_space(a), without_white_space(b));
        assert(without_white_space(a) + seq!['-'] + without_white_space(h) == without_white_space(
            hyphenated(s),
        ));
        assert(without_char(without_white_space(a) + seq!['-'], '-') == without_char(
            without_white_space(a),
            '-',
        ) + Seq::<char>::empty());
        assert(without_char(without_white_space(a), '-') + Seq::<char>::empty() == without_char(
            without_white_space(a),
            '-',
        ));
    }
}

proof fn lemma_without_white_space_join5(
    a: Seq<char>,
    b: Seq<char>,
    c: Seq<char>,
    d: Seq<char>,
    e: Seq<char>,
)
    ensures
        without_white_space(join5(a, b, c, d, e, '|')) == join5(
            without_white_space(a),
            without_white_space(b),
            without_white_space(c),
            without_white_space(d),
            without_white_space(e),
            '|',
        ),
{
    let bar = seq!['|'];
    lemma_single_char_filters('|');
    let s1 = a + bar;
    let s2 = s1 + b;
    let s3 = s2 + bar;
    let s4 = s3 + c;
    let s5 = s4 + bar;
    let s6 = s5 + d;
    let s7 = s6 + bar;
    lemma_filters_distribute(a, bar);
    lemma_filters_distribute(s1, b);
    lemma_filters_distribute(s2, bar);
    lemma_filters_distribute(s3, c);
    lemma_filters_distribute(s4, bar);
    lemma_filters_distribute(s5, d);
    lemma_filters_distribute(s6, bar);
    lemma_filters_distribute(s7, e);
    assert(join5(a, b, c, d, e, '|') == s7 + e);
}

/// A key shown with its signature grouped by hyphens normalizes to the same
/// key as the one it was made from, so a key copied from the generator's
/// display is read as the key itself.
pub proof fn lemma_display_key_normalizes(raw: Seq<char>, add_hyphens: bool)
    ensures
        normalized_key(display_key(raw, add_hyphens)) == normalized_key(raw),
{
    let parts = split_fields(raw, '|', 5);
    if add_hyphens && raw.len() > 0 && parts.len() == 5 {
        lemma_split5_parts(raw, '|');
        let h = hyphenated(parts[4]);
        let shown = join5(parts[0], parts[1], parts[2], parts[3], h, '|');
        assert(display_key(raw, add_hyphens) == shown);
        lemma_without_white_space_join5(parts[0], parts[1], parts[2], parts[3], h);
        lemma_without_white_space_join5(parts[0], parts[1], parts[2], parts[3], parts[4]);
        reveal(without_white_space);
        lemma_filter_lacks(parts[0], not_white_space(), '|');
        lemma_filter_lacks(parts[1], not_white_space(), '|');
        lemma_filter_lacks(parts[2], not_white_space(), '|');
        lemma_filter_lacks(parts[3], not_white_space(), '|');
        let w0 = without_white_space(parts[0]);
        let w1 = without_white_space(parts[1]);
        let w2 = without_white_space(parts[2]);
        let w3 = without_white_space(parts[3]);
        lemma_split_join5(w0, w1, w2, w3, without_white_space(h), '|');
        lemma_split_join5(w0, w1, w2, w3, without_white_space(parts[4]), '|');
        lemma_hyphens_vanish(parts[4]);
    }
}

proof fn lemma_edition_plain(ed: Seq<char>)
    requires
        is_known_edition(ed),
    ensures
        lacks_white_space(ed),
        lacks(ed, '|'),
        all_ascii(ed),
        ed.map_values(|c: char| ascii_upper(c)) == ed,
{
    reveal_strlit("FREE");
    reveal_strlit("BASIC");
    reveal_strlit("PRO");
    reveal_strlit("LIFETIME");
    assert(ed.map_values(|c: char| ascii_upper(c)) =~= ed);
}

proof fn lemma_plain_field(s: Seq<char>)
    requires
        lacks_white_space(s),
    ensures
        without_white_space(s) == s,
        trim(s) == s,
{
    reveal(without_white_space);
    lemma_filter_keeps_all(s, not_white_space());
    lemma_trim_no_white_space(s);
}

/// A key whose fields hold no white space (the first four no `|`, the last no
/// `-`) and whose prefix and edition are upper case is already normalized.
proof fn lemma_plain_key_normalized(
    pre: Seq<char>,
    machine: Seq<char>,
    digits: Seq<char>,
    edition: Seq<char>,
    sig: Seq<char>,
)
    requires
        lacks_white_space(pre),
        lacks_white_space(machine),
        lacks_white_space(digits),
        lacks_white_space(edition),
        lacks_white_space(sig),
        lacks(pre, '|'),
        lacks(machine, '|'),
        lacks(digits, '|'),
        lacks(edition, '|'),
        lacks(sig, '-'),
        uppercased(pre) == pre,
    ensures
        normalized_key(join5(pre, machine, digits, edition, sig, '|')) == join5(
            pre,
            machine,
            digits,
            edition,
            sig,
            '|',
        ),
        split_fields(join5(pre, machine, digits, edition, sig, '|'), '|', 5) == seq![
            pre,
            machine,
            digits,
            edition,
            sig,
        ],
{
    let k = join5(pre, machine, digits, edition, sig, '|');
    assert(without_white_space(pre) == pre && trim(pre) == pre) by {
        lemma_plain_field(pre);
    }
    assert(without_white_space(machine) == machine && trim(machine) == machine) by {
        lemma_plain_field(machine);
    }
    assert(without_white_space(digits) == digits && trim(digits) == digits) by {
        lemma_plain_field(digits);
    }
    assert(without_white_space(edition) == edition && trim(edition) == edition) by {
        lemma_plain_field(edition);
    }
    assert(without_white_space(sig) == sig && trim(sig) == sig) by {
        lemma_plain_field(sig);
    }
    assert(without_char(sig, '-') == sig) by {
        reveal(without_char);
        lemma_filter_keeps_all(sig, differs_from('-'));
    }
    assert(equal(without_white_space(k), k)) by {
        lemma_without_white_space_join5(pre, machine, digits, edition, sig);
    }
    assert(equal(split_fields(k, '|', 5), seq![pre, machine, digits, edition, sig])) by {
        lemma_split_join5(pre, machine, digits, edition, sig, '|');
    }
    let parts = split_fields(k, '|', 5);
    assert(parts[0] == pre && parts[1] == machine && parts[2] == digits && parts[3] == edition
        && parts[4] == sig);
}

/// A key made by the generator for machine `machine`, with a known edition,
/// activates on a machine whose identifier matches it up to ASCII case, at
/// any time up to its expiry, under the public key of the signing secret: the
/// stored license names the activating machine and carries the key's expiry,
/// edition and signature. (The machine text must hold no white space and no
/// `|`, as a typed identifier that survives normalization.)
pub proof fn lemma_generated_key_activates(
    secret: Seq<u8>,
    machine: Seq<char>,
    edition: Seq<char>,
    expiry: u64,
    local_machine: Seq<char>,
    now: u64,
)
    requires
        generated_signature_sound(machine, edition, expiry, secret),
        is_known_edition(edition),
        lacks_white_space(machine),
        lacks(machine, '|'),
        eq_ignoring_ascii_case(machine, local_machine),
        expiry == 0 || now <= expiry,
    ensures
        activation_outcome(
            ed25519_public_of(secret),
            generated_key(machine, edition, expiry, secret),
            local_machine,
            now,
        ) == Ok::<ActivationView, crate::license::ActivationErrorView>(
            ActivationView {
                license: LicenseFileView {
                    v: 1,
                    machine_id: local_machine,
                    expiry,
                    edition,
                    sig: base64_encoded(
                        ed25519_signature_of(
                            secret,
                            vstd::utf8::encode_utf8(payload_text(machine, expiry, edition)),
                        ),
                    ),
                    last_run: now,
                },
                status: StatusView::Active {
                    machine_id: local_machine,
                    edition,
                    expiry_str: expiry_text(expiry, now),
                    days_left: license_days_left(expiry, now),
                },
            },
        ),
{
    let payload = payload_text(machine, expiry, edition);
    let sig = base64_encoded(ed25519_signature_of(secret, vstd::utf8::encode_utf8(payload)));
    let digits = decimal(expiry as nat);
    let pre = key_prefix();
    let key = generated_key(machine, edition, expiry, secret);
    assert(key == join5(pre, machine, digits, edition, sig, '|'));
    // every field is free of white space, and the first four of `|`
    lemma_decimal_facts(expiry as nat);
    assert(lacks_white_space(digits));
    assert(lacks(digits, '|'));
    lemma_edition_plain(edition);
    assert(lacks_white_space(sig));
    assert(lacks(sig, '-'));
    assert(lacks_white_space(pre));
    assert(lacks(pre, '|'));
    assert(all_ascii(pre));
    assert(pre.map_values(|c: char| ascii_upper(c)) =~= pre);
    lemma_plain_key_normalized(pre, machine, digits, edition, sig);
    lemma_plain_field(machine);
    lemma_plain_field(edition);
    lemma_plain_field(sig);
    // so the parsed fields are the generated ones
    lemma_parse_decimal(expiry);
    assert(parse_u64(digits) == Some(expiry));
    assert(parsed_key(key) == Ok::<LicenseKeyView, crate::license::ActivationErrorView>(
        LicenseKeyView { machine, expiry, edition, signature: sig },
    ));
    assert(signature_accepted(ed25519_public_of(secret), payload, sig));
}

/// A license activated with a key that names this machine exactly is, at
/// any later launch (the activation having recorded its time as the last
/// run), reported by the launch-time check as that license: active until its
/// expiry, expired after it.
pub proof fn lemma_activated_license_is_reported(
    public_key: Seq<u8>,
    key: Seq<char>,
    machine_id: Seq<char>,
    activated_at: u64,
    later: u64,
    trial: Option<TrialFileView>,
)
    requires
        activation_outcome(public_key, key, machine_id, activated_at) is Ok,
        parsed_key(key) is Ok,
        parsed_key(key)->Ok_0.machine == machine_id,
        activated_at <= later,
    ensures
        ({
            let lic = activation_outcome(public_key, key, machine_id, activated_at)->Ok_0.license;
            let check = checked_status(
                machine_id,
                later,
                Some(activated_at),
                Some(lic),
                license_signature_ok(public_key, Some(lic)),
                trial,
            );
            &&& check.status == license_status(machine_id, lic, later)
            &&& (lic.expiry == 0 || later <= lic.expiry) ==> check.status is Active
        }),
{
}

/// A trial started at some time is, at any later launch without a license
/// in force, reported by the launch-time check with the whole days left of
/// its length (or as ended); and it cannot be started again.
pub proof fn lemma_started_trial_is_reported(
    machine_id: Seq<char>,
    started_at: u64,
    later: u64,
    license: Option<LicenseFileView>,
    license_signed: bool,
    earlier_trial: Option<TrialFileView>,
)
    requires
        trial_start_result(machine_id, started_at, license, license_signed, earlier_trial) is Ok,
        started_at <= later,
    ensures
        ({
            let t = trial_start_result(
                machine_id,
                started_at,
                license,
                license_signed,
                earlier_trial,
            )->Ok_0.trial;
            &&& checked_status(
                machine_id,
                later,
                Some(started_at),
                license,
                license_signed,
                Some(t),
            ).status == trial_status(machine_id, t, later)
            &&& trial_start_result(machine_id, later, license, license_signed, Some(t)) is Err
        }),
{
}

/// A launch is reported as a clock rollback exactly when the last recorded
/// run lies more than five minutes after it; then nothing is written back.
/// Otherwise the launch records itself as the last run, so the next launch is
/// taken for a rollback exactly when it is more than five minutes before it.
pub proof fn lemma_rollback_only_beyond_tolerance(
    machine_id: Seq<char>,
    now: u64,
    last_run: u64,
    license: Option<LicenseFileView>,
    license_signed: bool,
    trial: Option<TrialFileView>,
    next: u64,
    next_license: Option<LicenseFileView>,
    next_signed: bool,
    next_trial: Option<TrialFileView>,
)
    ensures
        ({
            let check = checked_status(machine_id, now, Some(last_run), license, license_signed, trial);
            &&& (check.status is TimeManipulation) <==> last_run > now + 300
            &&& check.status is TimeManipulation ==> !check.record_last_run
                && check.save_license is None && check.save_trial is None
            &&& !(check.status is TimeManipulation) ==> check.record_last_run
            &&& next + 300 < now ==> checked_status(
                machine_id,
                next,
                Some(now),
                next_license,
                next_signed,
                next_trial,
            ).status is TimeManipulation
            &&& now <= next + 300 ==> !(checked_status(
                machine_id,
                next,
                Some(now),
                next_license,
                next_signed,
                next_trial,
            ).status is TimeManipulation)
        }),
{
}

/// The last-run record written for a time, encrypted and decrypted with the
/// key of the same machine, reads back as that time.
pub proof fn lemma_last_run_round_trip(machine_id: Seq<char>, ts: u64)
    ensures
        last_run_value(
            xor_stream(xor_stream(last_run_text(ts), file_key(machine_id)), file_key(machine_id)),
        ) == Some(ts),
{
    broadcast use vstd::utf8::encode_utf8_valid_utf8, vstd::utf8::encode_utf8_decode_utf8;

    lemma_xor_stream_involution(last_run_text(ts), file_key(machine_id));
    lemma_decimal_facts(ts as nat);
    lemma_trim_no_white_space(decimal(ts as nat));
    lemma_parse_decimal(ts);
}

/// A key made by the generator, raw or in its hyphen-grouped display form,
/// checks out in the generator's own key check against the public key of the
/// signing secret, and the report names its machine, edition and expiry.
pub proof fn lemma_generated_key_verifies(
    secret: Seq<u8>,
    machine: Seq<char>,
    edition: Seq<char>,
    expiry: u64,
)
    requires
        generated_signature_sound(machine, edition, expiry, secret),
        is_known_edition(edition),
        lacks_white_space(machine),
        lacks(machine, '|'),
        ed25519_public_of(secret).len() == 32,
        ed25519_key_valid(ed25519_public_of(secret)),
    ensures
        verification_result(
            generated_key(machine, edition, expiry, secret),
            Ok::<Seq<u8>, Seq<char>>(ed25519_public_of(secret)),
        ) == Ok::<Seq<char>, VerifyErrorView>(verified_message(machine, edition, expiry)),
        verification_result(
            display_key(generated_key(machine, edition, expiry, secret), true),
            Ok::<Seq<u8>, Seq<char>>(ed25519_public_of(secret)),
        ) == Ok::<Seq<char>, VerifyErrorView>(verified_message(machine, edition, expiry)),
{
    lemma_display_key_normalizes(generated_key(machine, edition, expiry, secret), true);
    let payload = payload_text(machine, expiry, edition);
    let sig = base64_encoded(ed25519_signature_of(secret, vstd::utf8::encode_utf8(payload)));
    let digits = decimal(expiry as nat);
    let pre = key_prefix();
    let key = generated_key(machine, edition, expiry, secret);
    assert(key == join5(pre, machine, digits, edition, sig, '|'));
    lemma_decimal_facts(expiry as nat);
    lemma_edition_plain(edition);
    assert(all_ascii(pre));
    assert(pre.map_values(|c: char| ascii_upper(c)) =~= pre);
    lemma_plain_key_normalized(pre, machine, digits, edition, sig);
    assert(key[0] == 'H');
    if sig.len() > 0 {
        assert(key.last() == sig.last());
    } else {
        assert(key.last() == '|');
    }
    assert(trim(key) == key);
    let parts = split_fields(key, '|', 5);
    assert(signed_text(parts) == payload);
    lemma_parse_decimal(expiry);
}

// ---------------------------------------------------------------------------
// Normalization of typed keys
// ---------------------------------------------------------------------------

proof fn lemma_without_white_space_facts(s: Seq<char>)
    ensures
        lacks_white_space(without_white_space(s)),
        without_white_space(without_white_space(s)) == without_white_space(s),
        all_ascii(s) ==> all_ascii(without_white_space(s)),
        (forall|i: int| 0 <= i < s.len() ==> is_white_space(#[trigger] s[i]))
            ==> without_white_space(s) == Seq::<char>::empty(),
{
    reveal(without_white_space);
    let w = s.filter(not_white_space());
    assert forall|i: int| 0 <= i < w.len() implies !is_white_space(#[trigger] w[i]) by {
        s.lemma_filter_pred(not_white_space(), i);
    }
    lemma_filter_keeps_all(w, not_white_space());
    if all_ascii(s) {
        assert forall|i: int| 0 <= i < w.len() implies (#[trigger] w[i] as u32) < 128 by {
            assert(w.contains(w[i]));
            s.lemma_filter_contains_rev(not_white_space(), w[i]);
        }
    }
    if forall|i: int| 0 <= i < s.len() ==> is_white_space(#[trigger] s[i]) {
        if w.len() > 0 {
            assert(w.contains(w[0]));
            s.lemma_filter_contains_rev(not_white_space(), w[0]);
        }
        assert(w =~= Seq::<char>::empty());
    }
}

proof fn lemma_without_char_facts(s: Seq<char>, x: char)
    ensures
        lacks(without_char(s, x), x),
        lacks_white_space(s) ==> lacks_white_space(without_char(s, x)),
{
    reveal(without_char);
    let w = s.filter(differs_from(x));
    assert forall|i: int| 0 <= i < w.len() implies #[trigger] w[i] != x by {
        s.lemma_filter_pred(differs_from(x), i);
    }
    if lacks_white_space(s) {
        assert forall|i: int| 0 <= i < w.len() implies !is_white_space(#[trigger] w[i]) by {
            assert(w.contains(w[i]));
            s.lemma_filter_contains_rev(differs_from(x), w[i]);
        }
    }
}

proof fn lemma_join5_inherits(a: Seq<char>, b: Seq<char>, c: Seq<char>, d: Seq<char>, e: Seq<char>, sep: char)
    ensures
        lacks_white_space(join5(a, b, c, d, e, sep)) ==> lacks_white_space(a) && lacks_white_space(b)
            && lacks_white_space(c) && lacks_white_space(d) && lacks_white_space(e),
        all_ascii(join5(a, b, c, d, e, sep)) ==> all_ascii(a) && all_ascii(b) && all_ascii(c)
            && all_ascii(d) && all_ascii(e),
{
    let j = join5(a, b, c, d, e, sep);
    let ob = a.len() + 1;
    let oc = ob + b.len() + 1;
    let od = oc + c.len() + 1;
    let oe = od + d.len() + 1;
    assert forall|i: int| 0 <= i < a.len() implies j[i] == #[trigger] a[i] by {}
    assert forall|i: int| 0 <= i < b.len() implies j[ob + i] == #[trigger] b[i] by {}
    assert forall|i: int| 0 <= i < c.len() implies j[oc + i] == #[trigger] c[i] by {}
    assert forall|i: int| 0 <= i < d.len() implies j[od + i] == #[trigger] d[i] by {}
    assert forall|i: int| 0 <= i < e.len() implies j[oe + i] == #[trigger] e[i] by {}
}

proof fn lemma_ascii_upper_plain(s: Seq<char>)
    requires
        all_ascii(s),
        lacks_white_space(s),
        lacks(s, '|'),
    ensures
        uppercased(s) == s.map_values(|c: char| ascii_upper(c)),
        lacks_white_space(uppercased(s)),
        lacks(uppercased(s), '|'),
        uppercased(uppercased(s)) == uppercased(s),
{
    let u = s.map_values(|c: char| ascii_upper(c));
    assert(all_ascii(u));
    assert(u.map_values(|c: char| ascii_upper(c)) =~= u);
}

/// `big` is `small` with any number of characters satisfying `ok` inserted
/// anywhere (including none).
pub open spec fn with_insertions(small: Seq<char>, big: Seq<char>, ok: spec_fn(char) -> bool) -> bool
    decreases big.len(),
{
    if big.len() == 0 {
        small.len() == 0
    } else {
        ||| (small.len() > 0 && big.last() == small.last() && with_insertions(
            small.drop_last(),
            big.drop_last(),
            ok,
        ))
        ||| (ok(big.last()) && with_insertions(small, big.drop_last(), ok))
    }
}

/// Filtering out what was inserted: when no inserted character passes `p`,
/// the filtered texts are equal.
proof fn lemma_insertions_filtered(
    small: Seq<char>,
    big: Seq<char>,
    ok: spec_fn(char) -> bool,
    p: spec_fn(char) -> bool,
)
    requires
        with_insertions(small, big, ok),
        forall|c: char| #[trigger] ok(c) ==> !p(c),
    ensures
        big.filter(p) == small.filter(p),
    decreases big.len(),
{
    reveal_with_fuel(Seq::<_>::filter, 1);
    if big.len() > 0 {
        if small.len() > 0 && big.last() == small.last() && with_insertions(
            small.drop_last(),
            big.drop_last(),
            ok,
        ) {
            lemma_insertions_filtered(small.drop_last(), big.drop_last(), ok, p);
        } else {
            lemma_insertions_filtered(small, big.drop_last(), ok, p);
        }
    }
}

/// Insertions survive filtering both texts with the same predicate.
proof fn lemma_insertions_through_filter(
    small: Seq<char>,
    big: Seq<char>,
    ok: spec_fn(char) -> bool,
    q: spec_fn(char) -> bool,
)
    requires
        with_insertions(small, big, ok),
    ensures
        with_insertions(small.filter(q), big.filter(q), ok),
    decreases big.len(),
{
    reveal_with_fuel(Seq::<_>::filter, 1);
    if big.len() > 0 {
        let bd = big.drop_last();
        if small.len() > 0 && big.last() == small.last() && with_insertions(small.drop_last(), bd, ok) {
            lemma_insertions_through_filter(small.drop_last(), bd, ok, q);
            if q(big.last()) {
                assert(big.filter(q).drop_last() == bd.filter(q));
                assert(small.filter(q).drop_last() == small.drop_last().filter(q));
            }
        } else {
            lemma_insertions_through_filter(small, bd, ok, q);
            if q(big.last()) {
                assert(big.filter(q).drop_last() == bd.filter(q));
            }
        }
    }
}

/// White space typed anywhere into a license key, any amount of it, changes
/// nothing: activating the key with white space inserted gives the same
/// outcome as activating it without.
pub proof fn lemma_white_space_ignored_by_activation(
    public_key: Seq<u8>,
    key: Seq<char>,
    typed: Seq<char>,
    machine_id: Seq<char>,
    now: u64,
)
    requires
        with_insertions(key, typed, |c: char| is_white_space(c)),
    ensures
        activation_outcome(public_key, typed, machine_id, now) == activation_outcome(
            public_key,
            key,
            machine_id,
            now,
        ),
{
    reveal(without_white_space);
    lemma_insertions_filtered(key, typed, |c: char| is_white_space(c), not_white_space());
    assert(without_white_space(typed) == without_white_space(key));
}

/// Hyphens typed anywhere after the fourth `|` of a license key (inside the
/// signature field, as the generator's display form puts them), any number
/// of them, change nothing: activation gives the same outcome as without.
pub proof fn lemma_signature_hyphens_ignored_by_activation(
    public_key: Seq<u8>,
    p0: Seq<char>,
    p1: Seq<char>,
    p2: Seq<char>,
    p3: Seq<char>,
    sig: Seq<char>,
    typed_sig: Seq<char>,
    machine_id: Seq<char>,
    now: u64,
)
    requires
        lacks(p0, '|'),
        lacks(p1, '|'),
        lacks(p2, '|'),
        lacks(p3, '|'),
        with_insertions(sig, typed_sig, |c: char| c == '-'),
    ensures
        activation_outcome(public_key, join5(p0, p1, p2, p3, typed_sig, '|'), machine_id, now)
            == activation_outcome(public_key, join5(p0, p1, p2, p3, sig, '|'), machine_id, now),
{
    lemma_without_white_space_join5(p0, p1, p2, p3, typed_sig);
    lemma_without_white_space_join5(p0, p1, p2, p3, sig);
    reveal(without_white_space);
    reveal(without_char);
    lemma_filter_lacks(p0, not_white_space(), '|');
    lemma_filter_lacks(p1, not_white_space(), '|');
    lemma_filter_lacks(p2, not_white_space(), '|');
    lemma_filter_lacks(p3, not_white_space(), '|');
    let w0 = without_white_space(p0);
    let w1 = without_white_space(p1);
    let w2 = without_white_space(p2);
    let w3 = without_white_space(p3);
    lemma_split_join5(w0, w1, w2, w3, without_white_space(typed_sig), '|');
    lemma_split_join5(w0, w1, w2, w3, without_white_space(sig), '|');
    // the signature fields differ only by hyphens, which are dropped
    lemma_insertions_through_filter(sig, typed_sig, |c: char| c == '-', not_white_space());
    lemma_insertions_filtered(
        without_white_space(sig),
        without_white_space(typed_sig),
        |c: char| c == '-',
        differs_from('-'),
    );
    assert(without_char(without_white_space(typed_sig), '-') == without_char(
        without_white_space(sig),
        '-',
    ));
}

/// A key typed with white space anywhere and hyphens inside its signature,
/// any amount of both, activates exactly as the key itself.
pub proof fn lemma_typed_key_activates_as_key(
    public_key: Seq<u8>,
    p0: Seq<char>,
    p1: Seq<char>,
    p2: Seq<char>,
    p3: Seq<char>,
    sig: Seq<char>,
    typed_sig: Seq<char>,
    typed: Seq<char>,
    machine_id: Seq<char>,
    now: u64,
)
    requires
        lacks(p0, '|'),
        lacks(p1, '|'),
        lacks(p2, '|'),
        lacks(p3, '|'),
        with_insertions(sig, typed_sig, |c: char| c == '-'),
        with_insertions(join5(p0, p1, p2, p3, typed_sig, '|'), typed, |c: char| is_white_space(c)),
    ensures
        activation_outcome(public_key, typed, machine_id, now) == activation_outcome(
            public_key,
            join5(p0, p1, p2, p3, sig, '|'),
            machine_id,
            now,
        ),
{
    lemma_white_space_ignored_by_activation(
        public_key,
        join5(p0, p1, p2, p3, typed_sig, '|'),
        typed,
        machine_id,
        now,
    );
    lemma_signature_hyphens_ignored_by_activation(public_key, p0, p1, p2, p3, sig, typed_sig, machine_id, now);
}

/// Normalizing an ASCII license key a second time changes nothing.
pub proof fn lemma_normalize_idempotent(key: Seq<char>)
    requires
        all_ascii(key),
    ensures
        normalized_key(normalized_key(key)) == normalized_key(key),
{
    let cleaned = without_white_space(key);
    lemma_without_white_space_facts(key);
    let parts = split_fields(cleaned, '|', 5);
    if parts.len() == 5 {
        lemma_split5_parts(cleaned, '|');
        lemma_join5_inherits(parts[0], parts[1], parts[2], parts[3], parts[4], '|');
        lemma_plain_field(parts[0]);
        lemma_plain_field(parts[1]);
        lemma_plain_field(parts[2]);
        lemma_plain_field(parts[3]);
        lemma_ascii_upper_plain(parts[0]);
        lemma_without_char_facts(parts[4], '-');
        let sig = without_char(parts[4], '-');
        let up = uppercased(parts[0]);
        assert(normalized_key(key) == join5(up, parts[1], parts[2], parts[3], sig, '|'));
        lemma_plain_key_normalized(up, parts[1], parts[2], parts[3], sig);
    }
}

/// A raw key with five fields, no white space, an upper-case first field
/// and no hyphen in its signature is given back exactly by normalizing its
/// hyphen-grouped display form: the application undoes the generator's
/// display grouping.
pub proof fn lemma_display_form_reads_back(raw: Seq<char>)
    requires
        lacks_white_space(raw),
        split_fields(raw, '|', 5).len() == 5,
        uppercased(split_fields(raw, '|', 5)[0]) == split_fields(raw, '|', 5)[0],
        lacks(split_fields(raw, '|', 5)[4], '-'),
    ensures
        normalized_key(display_key(raw, true)) == raw,
{
    let p = split_fields(raw, '|', 5);
    lemma_display_key_normalizes(raw, true);
    lemma_split5_parts(raw, '|');
    lemma_join5_inherits(p[0], p[1], p[2], p[3], p[4], '|');
    lemma_plain_key_normalized(p[0], p[1], p[2], p[3], p[4]);
}

// ---------------------------------------------------------------------------
// What the counts, the cipher and the key literal come to
// ---------------------------------------------------------------------------

/// A trial of this machine, with no license in force and no clock rollback,
/// is reported at a launch as running with `7 - d` days left while fewer than
/// seven whole days `d` have passed since it started (none when the clock is
/// before the start), and as ended from the seventh whole day on; starting
/// the trial again is refused with the same days left, or as used up.
pub proof fn lemma_trial_runs_seven_whole_days(
    machine_id: Seq<char>,
    now: u64,
    last_run: Option<u64>,
    license: Option<LicenseFileView>,
    license_signed: bool,
    t: TrialFileView,
)
    requires
        t.machine_id == machine_id,
        last_run is None || last_run->0 <= now + 300,
        license is None || !license_signed || license->0.machine_id != machine_id,
    ensures
        ({
            let passed: int = if now >= t.trial_started {
                (now - t.trial_started) / 86400
            } else {
                0
            };
            let status = checked_status(
                machine_id,
                now,
                last_run,
                license,
                license_signed,
                Some(t),
            ).status;
            let restart = trial_start_result(machine_id, now, license, license_signed, Some(t));
            &&& passed < 7 ==> status == StatusView::Trial { machine_id, days_left: (7 - passed) as i64 }
            &&& passed >= 7 ==> status == StatusView::TrialExpired { machine_id }
            &&& passed < 7 ==> restart == Err::<crate::license::TrialStartView, TrialError>(
                TrialError::TrialInProgress { days_left: (7 - passed) as i64 },
            )
            &&& passed >= 7 ==> restart == Err::<crate::license::TrialStartView, TrialError>(
                TrialError::TrialUsed,
            )
        }),
{
}

/// A key generated for `days` days from `now` expires exactly `days * 86400`
/// seconds after `now` (a lifetime key, `days < 0`, carries 0), and the
/// expiry field of the key is the decimal text of that time.
pub proof fn lemma_generated_expiry_is_days_later(
    machine_id: Seq<char>,
    edition: Seq<char>,
    days: i64,
    secret: Seq<u8>,
    now: u64,
)
    requires
        trim(machine_id).len() > 0,
        is_known_edition(edition),
        secret.len() == 32,
        days < 0 || now + days * 86400 <= u64::MAX,
    ensures
        generation_result(machine_id, edition, days, Ok(secret), now) is Ok,
        ({
            let (key, expiry) = generation_result(machine_id, edition, days, Ok(secret), now)->Ok_0;
            &&& days >= 0 ==> expiry == now + days * 86400
            &&& days < 0 ==> expiry == 0
            &&& lacks(trim(machine_id), '|') ==> parse_u64(split_fields(key, '|', 5)[2]) == Some(
                expiry,
            )
        }),
{
    let r = generation_result(machine_id, edition, days, Ok(secret), now);
    let (key, expiry) = r->Ok_0;
    let m = trim(machine_id);
    if lacks(m, '|') {
        let payload = payload_text(m, expiry, edition);
        let sig = base64_encoded(ed25519_signature_of(secret, vstd::utf8::encode_utf8(payload)));
        let digits = decimal(expiry as nat);
        lemma_decimal_facts(expiry as nat);
        assert(lacks(digits, '|'));
        lemma_edition_plain(edition);
        assert(key == join5(key_prefix(), m, digits, edition, sig, '|'));
        lemma_split_join5(key_prefix(), m, digits, edition, sig, '|');
        lemma_parse_decimal(expiry);
    }
}

/// The remaining validity is written `Còn {n} ngày` with `n` the whole days
/// from `now` to the expiry, in decimal and uncapped; for a license in force
/// that number is also its `days_left`.
pub proof fn lemma_days_shown_are_days_left(machine_id: Seq<char>, l: LicenseFileView, now: u64)
    requires
        l.expiry != 0,
        now < l.expiry,
    ensures
        (exists|n: Seq<char>|
            expiry_text(l.expiry, now) == "Còn "@ + n + " ngày"@ && parse_u64(n) == Some(
                ((l.expiry - now) / 86400) as u64,
            )),
        license_status(machine_id, l, now) == (StatusView::Active {
            machine_id,
            edition: l.edition,
            expiry_str: expiry_text(l.expiry, now),
            days_left: license_days_left(l.expiry, now),
        }),
        l.expiry - now <= i64::MAX ==> license_days_left(l.expiry, now) == Some(
            ((l.expiry - now) / 86400) as i64,
        ),
{
    let days = ((l.expiry - now) / 86400) as u64;
    lemma_parse_decimal(days);
    assert(expiry_text(l.expiry, now) == "Còn "@ + decimal(days as nat) + " ngày"@);
}

proof fn lemma_xor_back(a: u8, k: u8)
    ensures
        (a ^ k) ^ a == k,
{
    assert((a ^ k) ^ a == k) by (bit_vector);
}

/// The cipher applies the 32-byte key repeated over the whole data: the
/// first 32 output bytes differ from the data by the key's bytes, and every
/// later byte by the same amount as the byte 32 places before it.
pub proof fn lemma_cipher_repeats_key(data: Seq<u8>, key: Seq<u8>)
    requires
        key.len() == 32,
    ensures
        xor_stream(data, key).len() == data.len(),
        forall|i: int| 0 <= i < data.len() && i < 32 ==> #[trigger] xor_stream(data, key)[i] ^ data[i] == key[i],
        forall|i: int|
            32 <= i < data.len() ==> #[trigger] xor_stream(data, key)[i] ^ data[i] == xor_stream(
                data,
                key,
            )[i - 32] ^ data[i - 32],
{
    let out = xor_stream(data, key);
    assert forall|i: int| 0 <= i < data.len() implies #[trigger] out[i] ^ data[i] == key[i % 32] by {
        lemma_xor_back(data[i], key[i % 32]);
    }
    assert forall|i: int| 32 <= i < data.len() implies #[trigger] out[i] ^ data[i] == out[i - 32]
        ^ data[i - 32] by {
        assert(out[i] ^ data[i] == key[i % 32]);
        assert(out[i - 32] ^ data[i - 32] == key[(i - 32) % 32]);
        assert((i - 32) % 32 == i % 32);
    }
}

/// A lower-case hexadecimal digit.
pub open spec fn is_lower_hex(c: char) -> bool {
    ('0' <= c && c <= '9') || ('a' <= c && c <= 'f')
}

/// The value of a lower-case hexadecimal digit.
pub open spec fn lower_hex_value(c: char) -> int {
    if '0' <= c && c <= '9' {
        c as int - '0' as int
    } else {
        c as int - 'a' as int + 10
    }
}

/// At position `at` of `s` stands `0x` and the two lower-case hexadecimal
/// digits of `b`.
pub open spec fn byte_written_at(s: Seq<char>, at: int, b: u8) -> bool {
    &&& s[at] == '0'
    &&& s[at + 1] == 'x'
    &&& is_lower_hex(s[at + 2])
    &&& is_lower_hex(s[at + 3])
    &&& lower_hex_value(s[at + 2]) * 16 + lower_hex_value(s[at + 3]) == b
}

/// At position `at` of `s` stands the separator `, ` (after byte `b`).
pub open spec fn separator_at(s: Seq<char>, at: int, b: u8) -> bool {
    s[at] == ',' && s[at + 1] == ' '
}

proof fn lemma_hex_literal_reads(b: u8)
    ensures
        hex_literal(b).len() == 4,
        hex_literal(b)[0] == '0',
        hex_literal(b)[1] == 'x',
        is_lower_hex(hex_literal(b)[2]),
        is_lower_hex(hex_literal(b)[3]),
        lower_hex_value(hex_literal(b)[2]) * 16 + lower_hex_value(hex_literal(b)[3]) == b,
{
}

/// The key literal lists each byte as `0x` and two lower-case hexadecimal
/// digits whose value is the byte, separated by `, `: byte `i` occupies
/// characters `6i .. 6i + 4`, followed by `, ` except after the last.
pub proof fn lemma_hex_list_reads_back(bytes: Seq<u8>)
    requires
        bytes.len() >= 1,
    ensures
        hex_list(bytes).len() == 6 * bytes.len() - 2,
        (forall|i: int| 0 <= i < bytes.len() ==> byte_written_at(hex_list(bytes), 6 * i, #[trigger] bytes[i])),
        (forall|i: int|
            0 <= i < bytes.len() - 1 ==> separator_at(hex_list(bytes), 6 * i + 4, #[trigger] bytes[i])),
    decreases bytes.len(),
{
    let s = hex_list(bytes);
    let n = bytes.len() as int;
    lemma_hex_literal_reads(bytes.last());
    if n == 1 {
        assert(s == hex_literal(bytes[0]));
    } else {
        let front = bytes.drop_last();
        lemma_hex_list_reads_back(front);
        let p = hex_list(front);
        assert(s == p + seq![',', ' '] + hex_literal(bytes.last()));
        assert forall|i: int| 0 <= i < n implies byte_written_at(s, 6 * i, #[trigger] bytes[i]) by {
            if i < n - 1 {
                assert(front[i] == bytes[i]);
                assert(s[6 * i] == p[6 * i]);
                assert(s[6 * i + 1] == p[6 * i + 1]);
                assert(s[6 * i + 2] == p[6 * i + 2]);
                assert(s[6 * i + 3] == p[6 * i + 3]);
            } else {
                assert(s[6 * i + 2] == hex_literal(bytes.last())[2]);
                assert(s[6 * i + 3] == hex_literal(bytes.last())[3]);
            }
        }
        assert forall|i: int| 0 <= i < n - 1 implies separator_at(s, 6 * i + 4, #[trigger] bytes[i]) by {
            if i < n - 2 {
                assert(front[i] == bytes[i]);
                assert(s[6 * i + 4] == p[6 * i + 4]);
                assert(s[6 * i + 5] == p[6 * i + 5]);
            }
        }
    }
}

/// An upper-case hexadecimal digit.
pub open spec fn is_upper_hex(c: char) -> bool {
    ('0' <= c && c <= '9') || ('A' <= c && c <= 'F')
}

/// The value of an upper-case hexadecimal digit.
pub open spec fn upper_hex_value(c: char) -> int {
    if '0' <= c && c <= '9' {
        c as int - '0' as int
    } else {
        c as int - 'A' as int + 10
    }
}

/// At position `at` of `s` stand the two upper-case hexadecimal digits of `b`.
pub open spec fn upper_byte_at(s: Seq<char>, at: int, b: u8) -> bool {
    &&& is_upper_hex(s[at])
    &&& is_upper_hex(s[at + 1])
    &&& upper_hex_value(s[at]) * 16 + upper_hex_value(s[at + 1]) == b
}

/// The machine identifier `XXXX-XXXX-XXXX` spells the first six bytes of the
/// digest in upper-case hexadecimal, two bytes per group.
pub proof fn lemma_fingerprint_reads_back(digest: Seq<u8>)
    requires
        digest.len() >= 6,
    ensures
        fingerprint_text(digest).len() == 14,
        fingerprint_text(digest)[4] == '-',
        fingerprint_text(digest)[9] == '-',
        upper_byte_at(fingerprint_text(digest), 0, digest[0]),
        upper_byte_at(fingerprint_text(digest), 2, digest[1]),
        upper_byte_at(fingerprint_text(digest), 5, digest[2]),
        upper_byte_at(fingerprint_text(digest), 7, digest[3]),
        upper_byte_at(fingerprint_text(digest), 10, digest[4]),
        upper_byte_at(fingerprint_text(digest), 12, digest[5]),
{
}

} // verus!
