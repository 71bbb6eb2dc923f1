use kappa::cache::GeometryCache;
use kappa::render::RenderObject;
use kappa::vertex::Vertex;

fn corner(tag: u32) -> Vertex {
    Vertex { position: [tag, tag + 1, tag + 2], color: [tag, 0, 0, 1], tex_coords: [0, tag] }
}

#[test]
fn new_cache_is_empty() {
    let cache = GeometryCache::new();
    assert_eq!(cache.vertex_count(), 0);
    assert_eq!(cache.index_count(), 0);
    assert!(cache.get_vertex(0).is_none());
    assert!(cache.get_index(0).is_none());
}

#[test]
fn vertices_round_trip() {
    let mut cache = GeometryCache::new();
    let list = vec![corner(1), corner(2), corner(3)];
    let handle = cache.alloc_vertex(list.clone());
    assert_eq!(cache.get_vertex(handle), Some(&list));
    assert_eq!(cache.vertex_count(), 1);
    assert_eq!(cache.index_count(), 0);
}

#[test]
fn indices_round_trip() {
    let mut cache = GeometryCache::new();
    let list: Vec<u16> = vec![0, 1, 2, 2, 3, 0];
    let handle = cache.alloc_index(list.clone());
    assert_eq!(cache.get_index(handle), Some(&list));
    assert_eq!(cache.index_count(), 1);
    assert_eq!(cache.vertex_count(), 0);
}

#[test]
fn handles_count_up_and_stay_valid() {
    let mut cache = GeometryCache::new();
    let mut handles: Vec<usize> = Vec::new();
    for n in 0..10u32 {
        handles.push(cache.alloc_vertex(vec![corner(n); n as usize]));
    }
    assert_eq!(handles, vec![0, 1, 2, 3, 4, 5, 6, 7, 8, 9]);
    for n in 0..10u32 {
        assert_eq!(cache.get_vertex(handles[n as usize]), Some(&vec![corner(n); n as usize]));
    }
}

#[test]
fn handles_of_many_lists_are_distinct() {
    let mut cache = GeometryCache::new();
    let mut vertex_handles: Vec<usize> = Vec::new();
    let mut index_handles: Vec<usize> = Vec::new();
    for n in 0..25u16 {
        vertex_handles.push(cache.alloc_vertex(vec![corner(n as u32)]));
        index_handles.push(cache.alloc_index(vec![n, n]));
    }
    for i in 0..25 {
        for j in 0..25 {
            if i != j {
                assert_ne!(vertex_handles[i], vertex_handles[j]);
                assert_ne!(index_handles[i], index_handles[j]);
            }
        }
        assert_eq!(cache.get_vertex(vertex_handles[i]), Some(&vec![corner(i as u32)]));
        assert_eq!(cache.get_index(index_handles[i]), Some(&vec![i as u16, i as u16]));
    }
}

#[test]
fn handle_out_of_range_finds_nothing() {
    let mut cache = GeometryCache::new();
    cache.alloc_vertex(vec![corner(0)]);
    cache.alloc_index(vec![0]);
    cache.alloc_index(vec![1]);
    assert!(cache.get_vertex(0).is_some());
    assert!(cache.get_vertex(1).is_none());
    assert!(cache.get_vertex(usize::MAX).is_none());
    assert!(cache.get_index(1).is_some());
    assert!(cache.get_index(2).is_none());
    assert!(cache.get_index(usize::MAX).is_none());
}

#[test]
fn empty_lists_can_be_stored() {
    let mut cache = GeometryCache::new();
    let v = cache.alloc_vertex(vec![]);
    let i = cache.alloc_index(vec![]);
    assert_eq!(cache.get_vertex(v), Some(&vec![]));
    assert_eq!(cache.get_index(i), Some(&vec![]));
}

#[test]
fn equal_lists_get_handles_of_their_own() {
    let mut cache = GeometryCache::new();
    let a = cache.alloc_index(vec![1, 2, 3]);
    let b = cache.alloc_index(vec![1, 2, 3]);
    assert_ne!(a, b);
    assert_eq!(cache.get_index(a), cache.get_index(b));
}

#[test]
fn render_object_registers_both_lists() {
    let mut cache = GeometryCache::new();
    cache.alloc_vertex(vec![corner(9)]);
    let vertices = vec![corner(1), corner(2), corner(3)];
    let indices: Vec<u16> = vec![0, 1, 2];
    let object = RenderObject::new(&mut cache, vertices.clone(), indices.clone());
    assert_eq!(object.vertex_addr(), 1);
    assert_eq!(object.index_addr(), 0);
    assert_eq!(cache.get_vertex(object.vertex_addr()), Some(&vertices));
    assert_eq!(cache.get_index(object.index_addr()), Some(&indices));
    assert_eq!(cache.get_vertex(0), Some(&vec![corner(9)]));
}

#[test]
fn render_objects_get_distinct_handles() {
    let mut cache = GeometryCache::new();
    let mut objects: Vec<RenderObject> = Vec::new();
    for n in 0..8u16 {
        objects.push(RenderObject::new(&mut cache, vec![corner(n as u32)], vec![n]));
    }
    for i in 0..8 {
        for j in 0..8 {
            if i != j {
                assert_ne!(objects[i].vertex_addr(), objects[j].vertex_addr());
                assert_ne!(objects[i].index_addr(), objects[j].index_addr());
                assert_ne!(objects[i], objects[j]);
            }
        }
    }
}

#[test]
fn indices_must_name_vertices() {
    let mut cache = GeometryCache::new();
    let good =
        RenderObject::new(&mut cache, vec![corner(0), corner(1), corner(2)], vec![0, 1, 2, 2, 1, 0]);
    let bad = RenderObject::new(&mut cache, vec![corner(0), corner(1), corner(2)], vec![0, 1, 3]);
    let empty = RenderObject::new(&mut cache, vec![], vec![]);
    let no_vertex = RenderObject::new(&mut cache, vec![], vec![0]);
    assert!(good.indices_valid(&cache));
    assert!(!bad.indices_valid(&cache));
    assert!(empty.indices_valid(&cache));
    assert!(!no_vertex.indices_valid(&cache));
}

#[test]
fn object_of_another_cache_is_not_valid() {
    let mut full = GeometryCache::new();
    RenderObject::new(&mut full, vec![corner(0)], vec![0]);
    let second = RenderObject::new(&mut full, vec![corner(0)], vec![0]);
    let empty = GeometryCache::new();
    assert!(second.indices_valid(&full));
    assert!(!second.indices_valid(&empty));
}
