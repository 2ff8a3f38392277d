use pallet_dropbox::bounded::LIST_CAPACITY;
use pallet_dropbox::pallet::{Config, Pallet};
use pallet_dropbox::types::{AccountId, Balance, Error, ErrorKind, Event, File, FileId, FileType};
use std::collections::HashMap;

const A: AccountId = 1;
const B: AccountId = 2;
const C: AccountId = 3;

const MAX_FILES_UPLOADED: u32 = 5;

fn registry_of(max_files_uploaded: u32) -> Pallet {
    Pallet::new(Config { default_free_file_size: 1024, cost_per_byte: 1, max_files_uploaded })
}

fn registry() -> Pallet {
    registry_of(MAX_FILES_UPLOADED)
}

fn link(n: u32) -> String {
    format!("ipfs://file-{n}")
}

fn upload(
    pallet: &mut Pallet,
    owner: AccountId,
    n: u32,
    allow_download: bool,
    file_type: FileType,
    cost: Option<Balance>,
) -> Result<FileId, Error> {
    match pallet.upload_file(owner, [0u8; 32], link(n), allow_download, file_type, cost, 10) {
        Ok(Event::Uploaded(who, id)) => {
            assert_eq!(who, owner);
            Ok(id)
        },
        Ok(other) => panic!("an upload announced {other:?}"),
        Err(error) => Err(error),
    }
}

fn upload_free(pallet: &mut Pallet, owner: AccountId, n: u32) -> FileId {
    upload(pallet, owner, n, true, FileType::Normal, None).unwrap()
}

fn fill(pallet: &mut Pallet, owner: AccountId) -> Vec<FileId> {
    let mut ids = Vec::new();
    for n in 0..MAX_FILES_UPLOADED {
        ids.push(upload_free(pallet, owner, n));
    }
    ids
}

/// A currency as the host keeps it: free balances, and a transfer that only
/// fails for want of funds.
struct Currency {
    free: HashMap<AccountId, Balance>,
}

impl Currency {
    fn balance_of(&self, who: AccountId) -> Balance {
        *self.free.get(&who).unwrap_or(&0)
    }

    fn transfer(&mut self, from: AccountId, to: AccountId, amount: Balance) -> Result<(), ()> {
        if self.balance_of(from) < amount {
            return Err(());
        }
        *self.free.entry(from).or_insert(0) -= amount;
        *self.free.entry(to).or_insert(0) += amount;
        Ok(())
    }
}

/// A download as a host runs it: ask the currency for the balance, let the
/// registry decide, then move what is owed.
fn download(
    pallet: &mut Pallet,
    currency: &mut Currency,
    caller: AccountId,
    id: FileId,
) -> Result<Balance, Error> {
    let owner = pallet.file_details(&id).map(|file| file.owner);
    match pallet.download_file(caller, id, currency.balance_of(caller))? {
        Event::Downloaded(who, what, amount) => {
            assert_eq!((who, what), (caller, id));
            if amount > 0 {
                currency.transfer(caller, owner.unwrap(), amount).unwrap();
            }
            Ok(amount)
        },
        other => panic!("a download announced {other:?}"),
    }
}

#[test]
fn new_registry_is_empty() {
    let pallet = registry();
    assert_eq!(pallet.all_files_count(), 0);
    assert_eq!(pallet.get_user_file_details(A), Vec::<FileId>::new());
    assert_eq!(pallet.downloaded_files(A), Vec::<FileId>::new());
    assert_eq!(pallet.file_details(&[7u8; 32]), None);
    assert_eq!(pallet.config().default_free_file_size, 1024);
    assert_eq!(pallet.config().cost_per_byte, 1);
    assert_eq!(pallet.config().max_files_uploaded, MAX_FILES_UPLOADED);
    assert_eq!(pallet.quota(), MAX_FILES_UPLOADED);
}

#[test]
fn identical_uploads_derive_one_identifier_and_the_second_is_a_duplicate() {
    let mut one = registry();
    let mut two = registry();
    let first = upload(&mut one, A, 1, true, FileType::Normal, Some(5)).unwrap();
    let elsewhere = upload(&mut two, A, 1, true, FileType::Normal, Some(5)).unwrap();
    assert_eq!(first, elsewhere);
    let again = upload(&mut one, A, 1, true, FileType::Normal, Some(5));
    assert_eq!(again, Err(Error::FileAlreadyExists));
    assert_eq!(again.unwrap_err().kind(), ErrorKind::Duplicate);
    assert_eq!(one.all_files_count(), 1);
    assert_eq!(one.get_user_file_details(A), vec![first]);
}

#[test]
fn same_fields_by_another_owner_are_another_file() {
    let mut pallet = registry();
    let of_a = upload(&mut pallet, A, 1, true, FileType::Normal, Some(5)).unwrap();
    let of_b = upload(&mut pallet, B, 1, true, FileType::Normal, Some(5)).unwrap();
    assert_ne!(of_a, of_b);
    assert_eq!(pallet.all_files_count(), 2);
}

#[test]
fn duplicate_is_reported_before_a_full_list() {
    let mut pallet = registry();
    fill(&mut pallet, A);
    let again = upload(&mut pallet, A, 0, true, FileType::Normal, None);
    assert_eq!(again, Err(Error::FileAlreadyExists));
}

#[test]
fn quota_stops_the_account_that_reached_it_and_no_other() {
    let mut pallet = registry();
    let ids = fill(&mut pallet, A);
    assert_eq!(ids.len(), MAX_FILES_UPLOADED as usize);
    assert_eq!(pallet.get_user_file_details(A), ids);
    let further = upload(&mut pallet, A, MAX_FILES_UPLOADED, true, FileType::Normal, None);
    assert_eq!(further, Err(Error::ExceedMaxFileUploaded));
    assert_eq!(further.unwrap_err().kind(), ErrorKind::ResourceExhausted);
    assert_eq!(pallet.get_user_file_details(A), ids);
    assert_eq!(pallet.all_files_count(), MAX_FILES_UPLOADED as u64);
    let of_b = upload_free(&mut pallet, B, MAX_FILES_UPLOADED);
    assert_eq!(pallet.get_user_file_details(B), vec![of_b]);
    assert_eq!(pallet.all_files_count(), MAX_FILES_UPLOADED as u64 + 1);
}

#[test]
fn quota_of_one() {
    let mut pallet = registry_of(1);
    let x = upload(&mut pallet, A, 1, true, FileType::Normal, Some(50)).unwrap();
    let refused = upload(&mut pallet, A, 2, true, FileType::Normal, Some(50));
    assert_eq!(refused, Err(Error::ExceedMaxFileUploaded));
    assert_eq!(refused.unwrap_err().kind(), ErrorKind::ResourceExhausted);
    let y = upload(&mut pallet, B, 2, true, FileType::Normal, Some(50)).unwrap();
    assert_eq!(pallet.get_user_file_details(B), vec![y]);
    assert_eq!(pallet.get_user_file_details(A), vec![x]);
    assert_eq!(pallet.all_files_count(), 2);
    assert_eq!(pallet.file_details(&y).unwrap().owner, B);
    assert_eq!(pallet.download_file(C, x, 50), Ok(Event::Downloaded(C, x, 50)));
    assert_eq!(pallet.download_file(C, y, 50), Err(Error::ExceedMaxFileUploaded));
    assert_eq!(pallet.transfer_file(A, x, B), Err(Error::ExceedMaxFileUploaded));
    assert_eq!(pallet.transfer_file(A, x, C), Ok(Event::Transfered(A, C, x)));
    assert_eq!(pallet.transfer_file(C, x, C), Ok(Event::Transfered(C, C, x)));
}

#[test]
fn quota_of_zero_admits_nothing() {
    let mut pallet = registry_of(0);
    assert_eq!(pallet.quota(), 0);
    assert_eq!(
        upload(&mut pallet, A, 1, true, FileType::Normal, None),
        Err(Error::ExceedMaxFileUploaded)
    );
    assert_eq!(pallet.all_files_count(), 0);
}

#[test]
fn quota_is_the_one_asked_for() {
    for quota in [0, 1, 100, 16_777_216, 16_777_217, u32::MAX - 1, u32::MAX] {
        let pallet = registry_of(quota);
        assert_eq!(pallet.quota(), quota);
        assert_eq!(pallet.config().max_files_uploaded, quota);
    }
    assert_eq!(LIST_CAPACITY, u32::MAX);
}

#[test]
fn large_quota_leaves_room_after_many_downloads() {
    let mut pallet = registry_of(u32::MAX);
    let id = upload_free(&mut pallet, B, 1);
    for _ in 0..1000 {
        assert_eq!(pallet.download_file(B, id, 0), Ok(Event::Downloaded(B, id, 0)));
    }
    assert_eq!(pallet.downloaded_files(B).len(), 1000);
    assert_eq!(pallet.check_download(B, &id, 0), Ok(0));
}

#[test]
fn transfer_away_makes_room_again() {
    let mut pallet = registry();
    let ids = fill(&mut pallet, A);
    pallet.transfer_file(A, ids[0], B).unwrap();
    let further = upload(&mut pallet, A, MAX_FILES_UPLOADED, true, FileType::Normal, None);
    assert!(further.is_ok());
    assert_eq!(pallet.get_user_file_details(A).len(), MAX_FILES_UPLOADED as usize);
}

#[test]
fn count_follows_successful_uploads_only() {
    let mut pallet = registry();
    let mut currency = Currency { free: HashMap::new() };
    assert_eq!(pallet.all_files_count(), 0);
    let first = upload_free(&mut pallet, A, 1);
    assert_eq!(pallet.all_files_count(), 1);
    let second = upload_free(&mut pallet, B, 2);
    assert_eq!(pallet.all_files_count(), 2);
    assert!(upload(&mut pallet, A, 1, true, FileType::Normal, None).is_err());
    assert_eq!(pallet.all_files_count(), 2);
    pallet.transfer_file(A, first, C).unwrap();
    assert_eq!(pallet.all_files_count(), 2);
    assert!(pallet.transfer_file(A, second, C).is_err());
    assert_eq!(pallet.all_files_count(), 2);
    download(&mut pallet, &mut currency, A, second).unwrap();
    assert_eq!(pallet.all_files_count(), 2);
    upload_free(&mut pallet, C, 3);
    assert_eq!(pallet.all_files_count(), 3);
}

#[test]
fn privileged_file_without_price_is_refused_to_everyone_but_the_owner() {
    for cost in [None, Some(0)] {
        let mut pallet = registry();
        let id = upload(&mut pallet, B, 1, true, FileType::Priviledged, cost).unwrap();
        for balance in [0, 1, 50, Balance::MAX] {
            let refused = pallet.download_file(C, id, balance);
            assert_eq!(refused, Err(Error::FilePricetooLow));
            assert_eq!(refused.unwrap_err().kind(), ErrorKind::InvalidPricing);
            assert_eq!(pallet.amount_due(C, &id), Err(Error::FilePricetooLow));
        }
        assert_eq!(pallet.downloaded_files(C), Vec::<FileId>::new());
        assert_eq!(pallet.amount_due(B, &id), Ok(0));
        assert_eq!(pallet.download_file(B, id, 0), Ok(Event::Downloaded(B, id, 0)));
    }
}

#[test]
fn privileged_file_that_hides_is_refused_for_hiding_first() {
    let mut pallet = registry();
    let id = upload(&mut pallet, B, 1, false, FileType::Priviledged, None).unwrap();
    assert_eq!(pallet.download_file(C, id, 10), Err(Error::FileNotAllowedToDownload));
}

#[test]
fn privileged_file_with_a_price_is_sold() {
    let mut pallet = registry();
    let id = upload(&mut pallet, B, 1, true, FileType::Priviledged, Some(1)).unwrap();
    assert_eq!(pallet.amount_due(C, &id), Ok(1));
    assert_eq!(pallet.download_file(C, id, 0), Err(Error::NotEnoughBalance));
    assert_eq!(pallet.download_file(C, id, 1), Ok(Event::Downloaded(C, id, 1)));
}

#[test]
fn hidden_file_is_for_the_owner_alone() {
    let mut pallet = registry();
    let mut currency = Currency { free: HashMap::from([(B, 0), (C, 1000)]) };
    let id = upload(&mut pallet, B, 1, false, FileType::Normal, Some(0)).unwrap();
    let refused = download(&mut pallet, &mut currency, C, id);
    assert_eq!(refused, Err(Error::FileNotAllowedToDownload));
    assert_eq!(refused.unwrap_err().kind(), ErrorKind::PermissionDenied);
    assert_eq!(pallet.downloaded_files(C), Vec::<FileId>::new());
    assert_eq!(download(&mut pallet, &mut currency, B, id), Ok(0));
    assert_eq!(pallet.downloaded_files(B), vec![id]);
    assert_eq!(currency.balance_of(B), 0);
    assert_eq!(currency.balance_of(C), 1000);
}

#[test]
fn owner_downloads_a_priced_hidden_file_for_nothing() {
    let mut pallet = registry();
    let id = upload(&mut pallet, B, 1, false, FileType::Normal, Some(70)).unwrap();
    assert_eq!(pallet.amount_due(B, &id), Ok(0));
    assert_eq!(pallet.download_file(B, id, 0), Ok(Event::Downloaded(B, id, 0)));
}

#[test]
fn payment_moves_the_cost_from_caller_to_owner() {
    let mut pallet = registry();
    let mut currency = Currency { free: HashMap::from([(B, 7), (C, 50)]) };
    let id = upload(&mut pallet, B, 1, true, FileType::Normal, Some(50)).unwrap();
    assert_eq!(pallet.amount_due(C, &id), Ok(50));
    let event = pallet.download_file(C, id, currency.balance_of(C));
    assert_eq!(event, Ok(Event::Downloaded(C, id, 50)));
    currency.transfer(C, B, 50).unwrap();
    assert_eq!(currency.balance_of(C), 0);
    assert_eq!(currency.balance_of(B), 57);
    assert_eq!(pallet.downloaded_files(C), vec![id]);
    assert_eq!(pallet.downloaded_files(B), Vec::<FileId>::new());
    assert_eq!(pallet.get_user_file_details(B), vec![id]);
    assert_eq!(pallet.file_details(&id).unwrap().owner, B);
}

#[test]
fn payment_with_more_than_enough() {
    let mut pallet = registry();
    let mut currency = Currency { free: HashMap::from([(C, 120)]) };
    let id = upload(&mut pallet, B, 1, true, FileType::Normal, Some(50)).unwrap();
    assert_eq!(download(&mut pallet, &mut currency, C, id), Ok(50));
    assert_eq!(download(&mut pallet, &mut currency, C, id), Ok(50));
    assert_eq!(currency.balance_of(C), 20);
    assert_eq!(currency.balance_of(B), 100);
    assert_eq!(download(&mut pallet, &mut currency, C, id), Err(Error::NotEnoughBalance));
    assert_eq!(pallet.downloaded_files(C), vec![id, id]);
}

#[test]
fn free_file_costs_nothing() {
    for cost in [None, Some(0)] {
        let mut pallet = registry();
        let mut currency = Currency { free: HashMap::new() };
        let id = upload(&mut pallet, B, 1, true, FileType::Normal, cost).unwrap();
        assert_eq!(download(&mut pallet, &mut currency, C, id), Ok(0));
        assert_eq!(pallet.downloaded_files(C), vec![id]);
    }
}

#[test]
fn insufficient_funds_change_nothing() {
    let mut pallet = registry();
    let mut currency = Currency { free: HashMap::from([(B, 7), (C, 49)]) };
    let id = upload(&mut pallet, B, 1, true, FileType::Normal, Some(50)).unwrap();
    let refused = download(&mut pallet, &mut currency, C, id);
    assert_eq!(refused, Err(Error::NotEnoughBalance));
    assert_eq!(refused.unwrap_err().kind(), ErrorKind::Payment);
    assert_eq!(pallet.downloaded_files(C), Vec::<FileId>::new());
    assert_eq!(currency.balance_of(C), 49);
    assert_eq!(currency.balance_of(B), 7);
    assert_eq!(pallet.download_file(C, id, 0), Err(Error::NotEnoughBalance));
}

#[test]
fn downloads_are_a_history_with_the_same_quota() {
    let mut pallet = registry();
    let id = upload_free(&mut pallet, B, 1);
    for _ in 0..MAX_FILES_UPLOADED {
        assert_eq!(pallet.download_file(C, id, 0), Ok(Event::Downloaded(C, id, 0)));
    }
    assert_eq!(pallet.downloaded_files(C), vec![id; MAX_FILES_UPLOADED as usize]);
    let refused = pallet.download_file(C, id, 0);
    assert_eq!(refused, Err(Error::ExceedMaxFileUploaded));
    assert_eq!(refused.unwrap_err().kind(), ErrorKind::ResourceExhausted);
    assert_eq!(pallet.downloaded_files(C).len(), MAX_FILES_UPLOADED as usize);
    assert_eq!(pallet.download_file(A, id, 0), Ok(Event::Downloaded(A, id, 0)));
}

#[test]
fn payment_is_checked_before_the_room_in_the_history() {
    let mut pallet = registry();
    let free = upload_free(&mut pallet, B, 1);
    let priced = upload(&mut pallet, B, 2, true, FileType::Normal, Some(5)).unwrap();
    for _ in 0..MAX_FILES_UPLOADED {
        pallet.download_file(C, free, 0).unwrap();
    }
    assert_eq!(pallet.download_file(C, priced, 4), Err(Error::NotEnoughBalance));
    assert_eq!(pallet.download_file(C, priced, 5), Err(Error::ExceedMaxFileUploaded));
}

#[test]
fn check_of_a_download_says_what_the_download_does_and_changes_nothing() {
    let mut pallet = registry();
    let priced = upload(&mut pallet, B, 1, true, FileType::Normal, Some(50)).unwrap();
    let hidden = upload(&mut pallet, B, 2, false, FileType::Normal, None).unwrap();
    let invalid = upload(&mut pallet, B, 3, true, FileType::Priviledged, Some(0)).unwrap();
    assert_eq!(pallet.check_download(C, &priced, 50), Ok(50));
    assert_eq!(pallet.check_download(C, &priced, 49), Err(Error::NotEnoughBalance));
    assert_eq!(pallet.check_download(B, &priced, 0), Ok(0));
    assert_eq!(pallet.check_download(C, &hidden, 50), Err(Error::FileNotAllowedToDownload));
    assert_eq!(pallet.check_download(C, &invalid, 50), Err(Error::FilePricetooLow));
    assert_eq!(pallet.check_download(C, &[9u8; 32], 50), Err(Error::FileNotExist));
    assert_eq!(pallet.downloaded_files(C), Vec::<FileId>::new());
    assert_eq!(pallet.downloaded_files(B), Vec::<FileId>::new());
    for _ in 0..MAX_FILES_UPLOADED {
        assert_eq!(pallet.check_download(C, &priced, 50), Ok(50));
        assert_eq!(pallet.download_file(C, priced, 50), Ok(Event::Downloaded(C, priced, 50)));
    }
    assert_eq!(pallet.check_download(C, &priced, 50), Err(Error::ExceedMaxFileUploaded));
    assert_eq!(pallet.check_download(C, &priced, 49), Err(Error::NotEnoughBalance));
    assert_eq!(pallet.download_file(C, priced, 50), Err(Error::ExceedMaxFileUploaded));
}

#[test]
fn unknown_identifier_is_not_found() {
    let mut pallet = registry();
    upload_free(&mut pallet, A, 1);
    let unknown = [9u8; 32];
    let refused = pallet.download_file(A, unknown, 100);
    assert_eq!(refused, Err(Error::FileNotExist));
    assert_eq!(refused.unwrap_err().kind(), ErrorKind::NotFound);
    assert_eq!(pallet.transfer_file(A, unknown, B), Err(Error::FileNotExist));
    assert_eq!(pallet.amount_due(A, &unknown), Err(Error::FileNotExist));
    assert_eq!(pallet.file_details(&unknown), None);
}

#[test]
fn only_the_owner_transfers() {
    let mut pallet = registry();
    let id = upload_free(&mut pallet, B, 1);
    let refused = pallet.transfer_file(C, id, C);
    assert_eq!(refused, Err(Error::NotFileOwner));
    assert_eq!(refused.unwrap_err().kind(), ErrorKind::PermissionDenied);
    assert_eq!(pallet.file_details(&id).unwrap().owner, B);
    assert_eq!(pallet.get_user_file_details(B), vec![id]);
    assert_eq!(pallet.get_user_file_details(C), Vec::<FileId>::new());
}

#[test]
fn transfer_to_a_full_account_changes_nothing() {
    let mut pallet = registry();
    let of_c = fill(&mut pallet, C);
    let kept = upload_free(&mut pallet, B, 1000);
    let id = upload_free(&mut pallet, B, 1001);
    let refused = pallet.transfer_file(B, id, C);
    assert_eq!(refused, Err(Error::ExceedMaxFileUploaded));
    assert_eq!(refused.unwrap_err().kind(), ErrorKind::ResourceExhausted);
    assert_eq!(pallet.file_details(&id).unwrap().owner, B);
    assert_eq!(pallet.get_user_file_details(B), vec![kept, id]);
    assert_eq!(pallet.get_user_file_details(C), of_c);
}

#[test]
fn transfer_moves_the_file_to_the_new_owner() {
    let mut pallet = registry();
    let first = upload_free(&mut pallet, B, 1);
    let id = upload(&mut pallet, B, 2, true, FileType::Normal, Some(50)).unwrap();
    let last = upload_free(&mut pallet, B, 3);
    let of_c = upload_free(&mut pallet, C, 4);
    let before = pallet.file_details(&id).unwrap().clone();
    assert_eq!(pallet.transfer_file(B, id, C), Ok(Event::Transfered(B, C, id)));
    let after = pallet.file_details(&id).unwrap().clone();
    assert_eq!(after.owner, C);
    assert_eq!(after, File { owner: C, ..before });
    assert_eq!(pallet.get_user_file_details(B), vec![first, last]);
    assert_eq!(pallet.get_user_file_details(C), vec![of_c, id]);
    assert_eq!(pallet.transfer_file(B, id, A), Err(Error::NotFileOwner));
    assert_eq!(pallet.transfer_file(C, id, A), Ok(Event::Transfered(C, A, id)));
    assert_eq!(pallet.get_user_file_details(C), vec![of_c]);
    assert_eq!(pallet.get_user_file_details(A), vec![id]);
}

#[test]
fn identifier_outlives_a_transfer() {
    let mut pallet = registry();
    let id = upload(&mut pallet, B, 1, true, FileType::Normal, Some(50)).unwrap();
    pallet.transfer_file(B, id, C).unwrap();
    let file = pallet.file_details(&id).unwrap().clone();
    assert_ne!(file.id(), id);
    assert_eq!(File { owner: B, ..file }.id(), id);
    assert_eq!(
        upload(&mut pallet, B, 1, true, FileType::Normal, Some(50)),
        Err(Error::FileAlreadyExists)
    );
    assert_eq!(pallet.download_file(B, id, 50), Ok(Event::Downloaded(B, id, 50)));
    assert_eq!(pallet.download_file(C, id, 0), Ok(Event::Downloaded(C, id, 0)));
}

#[test]
fn transfer_to_oneself_moves_the_file_to_the_end() {
    let mut pallet = registry();
    let ids = fill(&mut pallet, B);
    assert_eq!(pallet.transfer_file(B, ids[0], B), Ok(Event::Transfered(B, B, ids[0])));
    let mut expected = ids[1..].to_vec();
    expected.push(ids[0]);
    assert_eq!(pallet.get_user_file_details(B), expected);
    assert_eq!(pallet.file_details(&ids[0]).unwrap().owner, B);
}

#[test]
fn register_takes_the_identifier_it_is_given() {
    let mut pallet = registry();
    let file = File {
        file_link: link(1),
        allow_download: true,
        file_type: FileType::Normal,
        cost: None,
        file_size: 1,
        owner: A,
    };
    let id = [5u8; 32];
    assert_eq!(pallet.register_file(id, file.clone()), Ok(Event::Uploaded(A, id)));
    assert_eq!(pallet.register_file(id, file.clone()), Err(Error::FileAlreadyExists));
    assert_eq!(pallet.file_details(&id), Some(&file));
    assert_eq!(pallet.get_user_file_details(A), vec![id]);
}
